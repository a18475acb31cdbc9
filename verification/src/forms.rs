//! The bodies that the web front end posts.
use vstd::prelude::*;

verus! {

/// Post body for changing your status.
pub struct StatusForm {
    pub status: String,
}

/// Post body for publishing a listing.
pub struct ListingForm {
    pub title: String,
    pub description: Option<String>,
    pub role: String,
    pub price: Option<String>,
    pub barter_for: Option<String>,
    pub latitude: Option<String>,
    pub longitude: Option<String>,
    pub location_name: Option<String>,
}

/// Post body for commenting on a listing.
pub struct CommentForm {
    pub content: String,
}

} // verus!
