//! Theme resolution and page metadata for the MeowType site.
use vstd::prelude::*;

pub mod index;
pub mod site_metadata;

verus! {

} // verus!
