//! What the handlers save and show, built from the values the outside steps
//! handed back: the record URI a publish returned, the session's DID, the
//! profile the agent loaded.
use vstd::prelude::*;

use crate::feed::display_name_or_handle;
use crate::forms::ListingForm;
use crate::instant::Instant;
use crate::lexicons::comment::RecordData as CommentRecord;
use crate::listing::Listing;
use crate::store::{
    listing_columns_of, load_latest_listings_statement, load_latest_statuses_statement,
    save_comment_statement, save_listing_optimistic_statement, SqlParam, Statement,
    LOAD_LATEST_LISTINGS_SQL, LOAD_LATEST_STATUSES_SQL, SAVE_COMMENT_SQL, SAVE_LISTING_OPTIMISTIC_SQL,
};

verus! {

/// How many recent statuses, and how many recent listings, the home page shows.
pub const RECENT_LIMIT: usize = 20;

/// Loading the home page's recent statuses: the newest `RECENT_LIMIT`.
pub fn home_recent_statuses_statement() -> (st: Statement)
    ensures
        st.sql == LOAD_LATEST_STATUSES_SQL,
        st.params@.len() == 1,
        st.params@[0] matches SqlParam::Count(c) && c == 20,
{
    load_latest_statuses_statement(RECENT_LIMIT)
}

/// Loading the home page's recent listings: the newest `RECENT_LIMIT` that
/// their authors have not closed.
pub fn home_recent_listings_statement() -> (st: Statement)
    ensures
        st.sql == LOAD_LATEST_LISTINGS_SQL,
        st.params@.len() == 1,
        st.params@[0] matches SqlParam::Count(c) && c == 20,
{
    load_latest_listings_statement(RECENT_LIMIT)
}

/// The listing the listing handler indexes for `form`, published by
/// `author_did` at `published_uri`.
pub open spec fn created_listing_of(
    form: ListingForm,
    published_uri: String,
    author_did: String,
    created_at: Instant,
    indexed_at: Instant,
) -> Listing {
    Listing {
        uri: published_uri,
        author_did,
        title: form.title,
        description: form.description,
        role: form.role,
        price: form.price,
        barter_for: form.barter_for,
        latitude: form.latitude,
        longitude: form.longitude,
        altitude: None,
        location_name: form.location_name,
        image_cid: None,
        created_at,
        indexed_at,
    }
}

/// The listing indexed for a form keeps each field of the form in the
/// field of the same name, is stored at the published URI under the
/// author's DID, and has no altitude and no image.
pub proof fn lemma_created_listing_keeps_form(
    form: ListingForm,
    published_uri: String,
    author_did: String,
    created_at: Instant,
    indexed_at: Instant,
)
    ensures
        ({
            let l = created_listing_of(form, published_uri, author_did, created_at, indexed_at);
            &&& l.uri == published_uri
            &&& l.author_did == author_did
            &&& l.title == form.title
            &&& l.description == form.description
            &&& l.role == form.role
            &&& l.price == form.price
            &&& l.barter_for == form.barter_for
            &&& l.latitude == form.latitude
            &&& l.longitude == form.longitude
            &&& l.altitude is None
            &&& l.location_name == form.location_name
            &&& l.image_cid is None
            &&& l.created_at == created_at
            &&& l.indexed_at == indexed_at
        }),
{
}

/// What the listing handler saves once the listing from `form` was published
/// at `published_uri` by the signed-in `author_did`: that listing, saved as
/// created through this app.
pub fn created_listing_statement(
    form: ListingForm,
    published_uri: String,
    author_did: String,
    created_at: Instant,
    indexed_at: Instant,
) -> (st: Statement)
    ensures
        st.sql == SAVE_LISTING_OPTIMISTIC_SQL,
        st.params@ == listing_columns_of(
            created_listing_of(form, published_uri, author_did, created_at, indexed_at),
        ),
        st.params@.len() == 14,
        st.params@[0] == SqlParam::Text(published_uri),
        st.params@[1] == SqlParam::Text(author_did),
        st.params@[2] == SqlParam::Text(form.title),
        st.params@[3] == SqlParam::MaybeText(form.description),
        st.params@[4] == SqlParam::Text(form.role),
        st.params@[5] == SqlParam::MaybeText(form.price),
        st.params@[6] == SqlParam::MaybeText(form.barter_for),
        st.params@[7] == SqlParam::MaybeText(form.latitude),
        st.params@[8] == SqlParam::MaybeText(form.longitude),
        st.params@[9] == SqlParam::MaybeText(None),
        st.params@[10] == SqlParam::MaybeText(form.location_name),
        st.params@[11] == SqlParam::MaybeText(None),
        st.params@[12] == SqlParam::Time(created_at),
        st.params@[13] == SqlParam::Time(indexed_at),
{
    let listing = Listing::from_form(form, published_uri, author_did, created_at, indexed_at);
    save_listing_optimistic_statement(&listing)
}

/// What the comment handler saves once `record` was published at
/// `published_uri` by the signed-in `author_did`, indexed at `indexed_at`:
/// the comment, marked as not seen on jetstream and created through this app.
pub fn posted_comment_statement(
    record: CommentRecord,
    published_uri: String,
    author_did: String,
    indexed_at: Instant,
) -> (st: Statement)
    ensures
        st.sql == SAVE_COMMENT_SQL,
        st.params@ == seq![
            SqlParam::Text(published_uri),
            SqlParam::Text(author_did),
            SqlParam::Text(record.subject),
            SqlParam::Text(record.content),
            SqlParam::Text(record.created_at),
            SqlParam::Time(indexed_at),
            SqlParam::Flag(false),
            SqlParam::Flag(true),
        ],
{
    save_comment_statement(
        published_uri,
        author_did,
        record.subject,
        record.content,
        record.created_at,
        indexed_at,
        false,
        true,
    )
}

/// The signed-in user shown on a page: the session's DID and a display name.
pub struct Profile {
    pub did: String,
    pub display_name: Option<String>,
}

/// The profile shown for the signed-in `did` whose loaded profile has
/// `display_name` and `handle`: the display name, or the handle where the
/// profile has none.
pub fn profile_for(did: String, display_name: Option<String>, handle: String) -> (p: Profile)
    ensures
        p.did == did,
        p.display_name matches Some(n) && n@ == match display_name {
            Some(d) => d@,
            None => handle@,
        },
{
    Profile { did, display_name: Some(display_name_or_handle(display_name, handle)) }
}

} // verus!
