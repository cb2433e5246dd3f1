use meowtype::index::index_context;
use meowtype::site_metadata::{OpengraphMetadata, SeoMetadataBuilder, Theme};

#[test]
fn light_and_dark_resolve_exactly() {
    assert_eq!(Theme::from("light"), Theme::Light);
    assert_eq!(Theme::from("dark"), Theme::Dark);
    assert_eq!(Theme::from_cookie_value(Some("light")), Theme::Light);
    assert_eq!(Theme::from_cookie_value(Some("dark")), Theme::Dark);
}

#[test]
fn matching_is_case_sensitive() {
    assert_eq!(Theme::from("Light"), Theme::System);
    assert_eq!(Theme::from("DARK"), Theme::System);
    assert_eq!(Theme::from_cookie_value(Some("Light")), Theme::System);
}

#[test]
fn other_values_resolve_to_system() {
    for value in ["system", "", "blue", " light", "light ", "lightdark", "\"dark\""] {
        assert_eq!(Theme::from(value), Theme::System);
        assert_eq!(Theme::from_cookie_value(Some(value)), Theme::System);
    }
}

#[test]
fn absent_cookie_resolves_to_system() {
    assert_eq!(Theme::from_cookie_value(None), Theme::System);
}

#[test]
fn default_theme_is_system() {
    assert_eq!(Theme::default(), Theme::System);
}

#[test]
fn theme_names() {
    assert_eq!(<&'static str>::from(Theme::Light), "light");
    assert_eq!(<&'static str>::from(Theme::Dark), "dark");
    assert_eq!(<&'static str>::from(Theme::System), "system");
}

#[test]
fn theme_name_round_trip() {
    for theme in [Theme::Light, Theme::Dark, Theme::System] {
        let name: &'static str = theme.into();
        assert_eq!(Theme::from(name), theme);
        assert_eq!(Theme::from_cookie_value(Some(name)), theme);
    }
    // the way back collapses every unknown name onto one variant
    assert_eq!(Theme::from("sepia"), Theme::System);
}

#[test]
fn builder_without_overrides_gives_defaults() {
    let m = SeoMetadataBuilder::default().build().unwrap();
    assert_eq!(m.title, "MeowType");
    assert_eq!(m.description, "Challenge your typing speed and skills at MeowType.");
    assert!(m.open_graph.is_none());
    assert_eq!(m.theme, Theme::System);
}

#[test]
fn builder_with_dark_theme_keeps_other_defaults() {
    let m = SeoMetadataBuilder::default().theme(Theme::Dark).build().unwrap();
    assert_eq!(m.title, "MeowType");
    assert_eq!(m.description, "Challenge your typing speed and skills at MeowType.");
    assert!(m.open_graph.is_none());
    assert_eq!(m.theme, Theme::Dark);
}

#[test]
fn builder_takes_every_override() {
    let og = OpengraphMetadata {
        title: "Race".to_string(),
        description: "A typing race".to_string(),
        image: None,
        url: "https://example.org/race".to_string(),
    };
    let m = SeoMetadataBuilder::default()
        .title("Room".to_string())
        .description("Join the room".to_string())
        .open_graph(Some(og))
        .theme(Theme::Light)
        .build()
        .unwrap();
    assert_eq!(m.title, "Room");
    assert_eq!(m.description, "Join the room");
    let og = m.open_graph.unwrap();
    assert_eq!(og.title, "Race");
    assert_eq!(og.url, "https://example.org/race");
    assert_eq!(m.theme, Theme::Light);
}

#[test]
fn index_without_cookie_or_room() {
    let c = index_context(Theme::from_cookie_value(None), None).unwrap();
    assert!(c.room_id.is_none());
    assert_eq!(c.metadata.theme, Theme::System);
    assert_eq!(c.metadata.title, "MeowType");
}

#[test]
fn index_with_room_and_dark_cookie() {
    let c = index_context(Theme::from_cookie_value(Some("dark")), Some("abc123".to_string())).unwrap();
    assert_eq!(c.room_id.as_deref(), Some("abc123"));
    assert_eq!(c.metadata.theme, Theme::Dark);
    assert!(c.metadata.open_graph.is_none());
}
