//! The display theme, read from a cookie, and the metadata that a page carries.
use rocket::http::{Cookie, CookieJar};
use vstd::prelude::*;

verus! {

/// The cookie that holds the visitor's colour scheme.
pub const THEME_COOKIE: &'static str = "meowtype_color_scheme";

/// The visitor's display preference.
#[derive(Debug, Clone, Copy, PartialEq, Eq, Structural)]
pub enum Theme {
    Light,
    Dark,
    System,
}

/// The theme that a cookie value names: an exact, case-sensitive match on
/// `"light"` or `"dark"`, and `System` for anything else.
pub open spec fn theme_named(value: Seq<char>) -> Theme {
    if value == "light"@ {
        Theme::Light
    } else if value == "dark"@ {
        Theme::Dark
    } else {
        Theme::System
    }
}

/// The theme for a cookie that may be absent: `System` when it is.
pub open spec fn theme_of_cookie(value: Option<Seq<char>>) -> Theme {
    match value {
        Some(v) => theme_named(v),
        None => Theme::System,
    }
}

/// The name under which a theme is written.
pub open spec fn theme_name(t: Theme) -> Seq<char> {
    match t {
        Theme::Light => "light"@,
        Theme::Dark => "dark"@,
        Theme::System => "system"@,
    }
}

/// Whether two strings hold the same characters.
fn same_text(a: &str, b: &str) -> (r: bool)
    ensures
        r == (a@ == b@),
{
    let n = a.unicode_len();
    if n != b.unicode_len() {
        return false;
    }
    let mut i: usize = 0;
    while i < n
        invariant
            n == a@.len(),
            n == b@.len(),
            i <= n,
            forall|j: int| 0 <= j < i ==> a@[j] == b@[j],
        decreases n - i,
    {
        if a.get_char(i) != b.get_char(i) {
            return false;
        }
        i = i + 1;
    }
    assert(a@ =~= b@);
    true
}

impl Default for Theme {
    fn default() -> (r: Self)
        ensures
            r == Theme::System,
    {
        Theme::System
    }
}

impl Theme {
    /// Resolves the theme from the trimmed value of the theme cookie, or from
    /// its absence.
    pub fn from_cookie_value(value: Option<&str>) -> (r: Self)
        ensures
            r == theme_of_cookie(
                match value {
                    Some(s) => Some(s@),
                    None => None,
                },
            ),
            value is None ==> r == Theme::System,
            value matches Some(s) && s@ != "light"@ && s@ != "dark"@ ==> r == Theme::System,
            value matches Some(s) && s@ == "light"@ ==> r == Theme::Light,
            value matches Some(s) && s@ == "dark"@ ==> r == Theme::Dark,
    {
        proof {
            lemma_theme_names_distinct();
        }
        match value {
            Some(s) => Theme::from(s),
            None => Theme::System,
        }
    }

    /// Resolves the theme from the trimmed value of the cookie
    /// `meowtype_color_scheme` of a request; `System` when the request carries
    /// none. No other cookie has a bearing on the result.
    pub fn from_cookie_jar(cookie_jar: &CookieJar<'_>) -> (r: Self)
        ensures
            r == theme_of_cookie(theme_cookie_value(*cookie_jar)),
    {
        match cookie_jar.get(THEME_COOKIE) {
            Some(cookie) => Theme::from_cookie_value(Some(cookie.value_trimmed())),
            None => Theme::from_cookie_value(None),
        }
    }
}

impl<'a> From<&'a str> for Theme {
    fn from(value: &'a str) -> (r: Self)
        ensures
            r == theme_named(value@),
    {
        if same_text(value, "light") {
            Theme::Light
        } else if same_text(value, "dark") {
            Theme::Dark
        } else {
            Theme::System
        }
    }
}

impl<'a> vstd::std_specs::convert::FromSpecImpl<&'a str> for Theme {
    open spec fn obeys_from_spec() -> bool {
        true
    }

    open spec fn from_spec(v: &'a str) -> Theme {
        theme_named(v@)
    }
}

impl From<Theme> for &'static str {
    fn from(value: Theme) -> (r: &'static str)
        ensures
            r@ == theme_name(value),
    {
        match value {
            Theme::Light => "light",
            Theme::Dark => "dark",
            Theme::System => "system",
        }
    }
}

impl vstd::std_specs::convert::FromSpecImpl<Theme> for &'static str {
    open spec fn obeys_from_spec() -> bool {
        true
    }

    open spec fn from_spec(v: Theme) -> &'static str {
        match v {
            Theme::Light => "light",
            Theme::Dark => "dark",
            Theme::System => "system",
        }
    }
}

/// Writing a theme under its name and resolving that name gives the theme
/// back. The way back is not one to one: every unrecognised name resolves to
/// `System` as well.
pub proof fn lemma_theme_name_round_trip(t: Theme)
    ensures
        theme_named(theme_name(t)) == t,
        theme_of_cookie(Some(theme_name(t))) == t,
{
    lemma_theme_names_distinct();
}

/// The three names differ from each other.
proof fn lemma_theme_names_distinct()
    ensures
        "light"@ != "dark"@,
        "system"@ != "dark"@,
        "system"@ != "light"@,
{
    reveal_strlit("light");
    reveal_strlit("dark");
    reveal_strlit("system");
    assert("light"@.len() == 5);
    assert("dark"@.len() == 4);
    assert("system"@.len() == 6);
}

/// An image shown in a link preview.
#[derive(Debug, Clone)]
pub struct OpengraphImage {
    pub url: String,
    pub alt: String,
    pub width: u32,
    pub height: u32,
}

/// What a link preview shows of the page.
#[derive(Debug, Clone)]
pub struct OpengraphMetadata {
    pub title: String,
    pub description: String,
    pub image: Option<OpengraphImage>,
    pub url: String,
}

/// The title, description, link preview and theme that a page is rendered with.
#[derive(Debug, Clone)]
pub struct SeoMetadata {
    pub title: String,
    pub description: String,
    pub open_graph: Option<OpengraphMetadata>,
    pub theme: Theme,
}

/// The title a page has unless one is given.
pub open spec fn default_title() -> Seq<char> {
    "MeowType"@
}

/// The description a page has unless one is given.
pub open spec fn default_description() -> Seq<char> {
    "Challenge your typing speed and skills at MeowType."@
}

/// Why a `SeoMetadataBuilder` could not build.
#[derive(Debug, Clone)]
pub enum SeoMetadataBuilderError {
    /// A field without a default was not set.
    UninitializedField(&'static str),
    /// The fields set break a rule of the record.
    ValidationError(String),
}

/// Collects the fields of a `SeoMetadata`; each one left unset takes its
/// default.
#[derive(Debug, Clone)]
pub struct SeoMetadataBuilder {
    pub title: Option<String>,
    pub description: Option<String>,
    pub open_graph: Option<Option<OpengraphMetadata>>,
    pub theme: Option<Theme>,
}

impl Default for SeoMetadataBuilder {
    fn default() -> (r: Self)
        ensures
            r.is_empty(),
    {
        SeoMetadataBuilder { title: None, description: None, open_graph: None, theme: None }
    }
}

impl SeoMetadataBuilder {
    /// No field has been set.
    pub open spec fn is_empty(&self) -> bool {
        &&& self.title is None
        &&& self.description is None
        &&& self.open_graph is None
        &&& self.theme is None
    }

    /// The title that `build` gives.
    pub open spec fn built_title(&self) -> Seq<char> {
        match self.title {
            Some(t) => t@,
            None => default_title(),
        }
    }

    /// The description that `build` gives.
    pub open spec fn built_description(&self) -> Seq<char> {
        match self.description {
            Some(d) => d@,
            None => default_description(),
        }
    }

    /// The link preview that `build` gives: none unless one was set.
    pub open spec fn built_open_graph(&self) -> Option<OpengraphMetadata> {
        match self.open_graph {
            Some(o) => o,
            None => None,
        }
    }

    /// The theme that `build` gives: `System` unless one was set.
    pub open spec fn built_theme(&self) -> Theme {
        match self.theme {
            Some(t) => t,
            None => Theme::System,
        }
    }

    /// Sets the title.
    pub fn title(self, value: String) -> (r: Self)
        ensures
            r == (SeoMetadataBuilder { title: Some(value), ..self }),
    {
        SeoMetadataBuilder { title: Some(value), ..self }
    }

    /// Sets the description.
    pub fn description(self, value: String) -> (r: Self)
        ensures
            r == (SeoMetadataBuilder { description: Some(value), ..self }),
    {
        SeoMetadataBuilder { description: Some(value), ..self }
    }

    /// Sets the link preview, or sets that there is none.
    pub fn open_graph(self, value: Option<OpengraphMetadata>) -> (r: Self)
        ensures
            r == (SeoMetadataBuilder { open_graph: Some(value), ..self }),
    {
        SeoMetadataBuilder { open_graph: Some(value), ..self }
    }

    /// Sets the theme.
    pub fn theme(self, value: Theme) -> (r: Self)
        ensures
            r == (SeoMetadataBuilder { theme: Some(value), ..self }),
    {
        SeoMetadataBuilder { theme: Some(value), ..self }
    }

    /// Builds the record, each unset field taking its default. Every field has
    /// one, so this always succeeds.
    pub fn build(self) -> (r: Result<SeoMetadata, SeoMetadataBuilderError>)
        ensures
            r matches Ok(m) && m.title@ == self.built_title() && m.description@
                == self.built_description() && m.open_graph == self.built_open_graph()
                && m.theme == self.built_theme(),
    {
        let title = match self.title {
            Some(t) => t,
            None => String::from_str("MeowType"),
        };
        let description = match self.description {
            Some(d) => d,
            None => String::from_str("Challenge your typing speed and skills at MeowType."),
        };
        let open_graph = match self.open_graph {
            Some(o) => o,
            None => None,
        };
        let theme = match self.theme {
            Some(t) => t,
            None => Theme::System,
        };
        Ok(SeoMetadata { title, description, open_graph, theme })
    }
}

/// What a string becomes when one pair of enclosing double quotes is removed
/// from it, where it has such a pair.
pub open spec fn trim_quotes(v: Seq<char>) -> Seq<char> {
    if v.len() >= 2 && v[0] == '"' && v[v.len() - 1] == '"' {
        v.subrange(1, v.len() - 1)
    } else {
        v
    }
}

/// The trimmed value of the theme cookie that a jar holds, if it holds one.
pub open spec fn theme_cookie_value(jar: CookieJar<'_>) -> Option<Seq<char>> {
    if jar_values(jar).contains_key(THEME_COOKIE@) {
        Some(trim_quotes(jar_values(jar)[THEME_COOKIE@]))
    } else {
        None
    }
}

/// The cookies that a request's jar holds: each name with its value.
pub uninterp spec fn jar_values(jar: CookieJar<'_>) -> Map<Seq<char>, Seq<char>>;

/// The value that a cookie carries.
pub uninterp spec fn cookie_value(c: Cookie<'_>) -> Seq<char>;

#[verifier::external_type_specification]
#[verifier::external_body]
pub struct ExCookieJar<'a>(CookieJar<'a>);

#[verifier::external_type_specification]
#[verifier::external_body]
pub struct ExCookie<'c>(Cookie<'c>);

/// Relies on rocket's `CookieJar::get`: a lookup by name among the cookies
/// that the jar holds, which `&self` methods do not change; the cookie found
/// carries the value held under that name.
pub assume_specification<'a, 'j>[ CookieJar::<'a>::get ](
    jar: &'j CookieJar<'a>,
    name: &str,
) -> (r: Option<&'j Cookie<'static>>)
    ensures
        r is Some <==> jar_values(*jar).contains_key(name@),
        r matches Some(c) ==> cookie_value(*c) == jar_values(*jar)[name@],
;

/// Relies on cookie's `Cookie::value_trimmed`: the cookie's value, with one
/// pair of enclosing double quotes removed where both are there.
pub assume_specification<'c, 'r>[ Cookie::<'c>::value_trimmed ](c: &'r Cookie<'c>) -> (r: &'r str)
    ensures
        r@ == trim_quotes(cookie_value(*c)),
;

} // verus!
