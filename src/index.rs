//! What the site's index page is rendered from.
use crate::site_metadata::{
    default_description, default_title, SeoMetadata, SeoMetadataBuilder, SeoMetadataBuilderError,
    Theme,
};
use vstd::prelude::*;

verus! {

/// The values that the index template is rendered with: the room asked for,
/// as it came, and the page's metadata.
#[derive(Debug, Clone)]
pub struct IndexContext {
    pub room_id: Option<String>,
    pub metadata: SeoMetadata,
}

/// Builds the context of the index page for a resolved theme: the metadata
/// takes that theme and the defaults for everything else, and the room is
/// passed on unchanged.
pub fn index_context(theme: Theme, room_id: Option<String>) -> (r: Result<
    IndexContext,
    SeoMetadataBuilderError,
>)
    ensures
        r matches Ok(c) && c.room_id == room_id && c.metadata.title@ == default_title()
            && c.metadata.description@ == default_description() && c.metadata.open_graph is None
            && c.metadata.theme == theme,
{
    match SeoMetadataBuilder::default().theme(theme).build() {
        Ok(metadata) => Ok(IndexContext { room_id, metadata }),
        Err(e) => Err(e),
    }
}

} // verus!
