//! The `xyz.mercato.comment` record.
use vstd::prelude::*;

use crate::forms::CommentForm;
use crate::uris::{listing_uri, listing_uri_of};

verus! {

/// A comment on the listing at `subject`; `created_at` is an RFC 3339
/// date-time.
pub struct RecordData {
    pub content: String,
    pub subject: String,
    pub created_at: String,
}

impl RecordData {
    /// The comment posted with `form` on the listing record `rkey` of the
    /// repository of `did`, created at `created_at`.
    pub fn for_listing(form: CommentForm, did: &str, rkey: &str, created_at: String) -> (data: RecordData)
        ensures
            data.content == form.content,
            data.subject@ == listing_uri_of(did@, rkey@),
            data.created_at == created_at,
    {
        RecordData { content: form.content, subject: listing_uri(did, rkey), created_at }
    }
}

} // verus!
