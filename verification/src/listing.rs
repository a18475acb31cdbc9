//! A listing as the index stores it.
use vstd::prelude::*;

use crate::forms::ListingForm;
use crate::instant::Instant;

verus! {

/// A listing as the index stores it.
pub struct Listing {
    pub uri: String,
    pub author_did: String,
    pub title: String,
    pub description: Option<String>,
    pub role: String,
    pub price: Option<String>,
    pub barter_for: Option<String>,
    pub latitude: Option<String>,
    pub longitude: Option<String>,
    pub altitude: Option<String>,
    pub location_name: Option<String>,
    pub image_cid: Option<String>,
    pub created_at: Instant,
    pub indexed_at: Instant,
}

/// A listing as the index gives it back: the stored listing and whether it
/// was seen on jetstream and created through this app (0 or 1).
pub struct ListingFromDb {
    pub uri: String,
    pub author_did: String,
    pub title: String,
    pub description: Option<String>,
    pub role: String,
    pub price: Option<String>,
    pub barter_for: Option<String>,
    pub latitude: Option<String>,
    pub longitude: Option<String>,
    pub altitude: Option<String>,
    pub location_name: Option<String>,
    pub image_cid: Option<String>,
    pub created_at: Instant,
    pub indexed_at: Instant,
    pub seen_on_jetstream: usize,
    pub created_via_this_app: usize,
}

impl Listing {
    /// The listing indexed for a form that `author_did` published at `uri`:
    /// the form's fields, with no altitude and no image.
    pub fn from_form(
        form: ListingForm,
        uri: String,
        author_did: String,
        created_at: Instant,
        indexed_at: Instant,
    ) -> (listing: Listing)
        ensures
            listing.uri == uri,
            listing.author_did == author_did,
            listing.title == form.title,
            listing.description == form.description,
            listing.role == form.role,
            listing.price == form.price,
            listing.barter_for == form.barter_for,
            listing.latitude == form.latitude,
            listing.longitude == form.longitude,
            listing.altitude is None,
            listing.location_name == form.location_name,
            listing.image_cid is None,
            listing.created_at == created_at,
            listing.indexed_at == indexed_at,
    {
        Listing {
            uri,
            author_did,
            title: form.title,
            description: form.description,
            role: form.role,
            price: form.price,
            barter_for: form.barter_for,
            latitude: form.latitude,
            longitude: form.longitude,
            altitude: None,
            location_name: form.location_name,
            image_cid: None,
            created_at,
            indexed_at,
        }
    }
}

} // verus!
