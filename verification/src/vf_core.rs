//! The fields that any ValueFlows entity may carry.

use vstd::prelude::*;

verus! {

/// The base of the entities of the vocabulary: four optional fields that any
/// of them may have.
#[derive(Debug)]
pub struct VfEntry {
    pub name: Option<String>,
    pub image: Option<String>,
    pub note: Option<String>,
    pub url: Option<String>,
}

impl Default for VfEntry {
    /// The entry with no field set.
    fn default() -> (entry: Self)
        ensures
            entry.name is None,
            entry.image is None,
            entry.note is None,
            entry.url is None,
    {
        VfEntry { name: None, image: None, note: None, url: None }
    }
}

} // verus!
