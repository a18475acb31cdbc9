//! The `xyz.mercato.listing` record.
use vstd::prelude::*;

use crate::forms::ListingForm;
use crate::text::copy_opt;

verus! {

/// Where a listed item can be found.
pub struct Geo {
    pub latitude: String,
    pub longitude: String,
    pub name: Option<String>,
    pub altitude: Option<String>,
}

/// The content of a listing record, as it is published to the author's
/// repository. `created_at` is an RFC 3339 date-time.
pub struct RecordData {
    pub title: String,
    pub role: String,
    pub created_at: String,
    pub description: Option<String>,
    pub price: Option<String>,
    pub barter_for: Option<String>,
    pub geo: Option<Geo>,
}

/// The location of a listing posted with `latitude`, `longitude` and
/// `location_name`: present only where both coordinates are.
pub open spec fn geo_of(
    latitude: Option<String>,
    longitude: Option<String>,
    location_name: Option<String>,
) -> Option<Geo> {
    match (latitude, longitude) {
        (Some(lat), Some(lng)) => Some(
            Geo { latitude: lat, longitude: lng, name: location_name, altitude: None },
        ),
        _ => None,
    }
}

/// The location given in a listing form, where it gives both coordinates.
pub fn geo_from_form(form: &ListingForm) -> (geo: Option<Geo>)
    ensures
        geo == geo_of(form.latitude, form.longitude, form.location_name),
{
    match (&form.latitude, &form.longitude) {
        (Some(lat), Some(lng)) => Some(
            Geo {
                latitude: lat.clone(),
                longitude: lng.clone(),
                name: copy_opt(&form.location_name),
                altitude: None,
            },
        ),
        _ => None,
    }
}

impl RecordData {
    /// The record published for a listing form, created at `created_at`.
    pub fn from_form(form: &ListingForm, created_at: String) -> (data: RecordData)
        ensures
            data.title == form.title,
            data.role == form.role,
            data.created_at == created_at,
            data.description == form.description,
            data.price == form.price,
            data.barter_for == form.barter_for,
            data.geo == geo_of(form.latitude, form.longitude, form.location_name),
    {
        RecordData {
            title: form.title.clone(),
            role: form.role.clone(),
            created_at,
            description: copy_opt(&form.description),
            price: copy_opt(&form.price),
            barter_for: copy_opt(&form.barter_for),
            geo: geo_from_form(form),
        }
    }
}

} // verus!
