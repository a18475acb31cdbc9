//! The `xyz.mercato` record collections.
pub mod comment;
pub mod listing;

use vstd::prelude::*;

verus! {

/// The collection of listing records.
pub struct Listing;

impl Listing {
    /// The collection's namespaced identifier.
    pub fn nsid() -> (id: &'static str)
        ensures
            id@ == "xyz.mercato.listing"@,
    {
        "xyz.mercato.listing"
    }
}

/// The collection of comment records.
pub struct Comment;

impl Comment {
    /// The collection's namespaced identifier.
    pub fn nsid() -> (id: &'static str)
        ensures
            id@ == "xyz.mercato.comment"@,
    {
        "xyz.mercato.comment"
    }
}

} // verus!
