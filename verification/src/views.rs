//! The values the handlers render or send: the home page's feed of
//! listings, the listing page, and what is broadcast to web socket clients
//! and answered when a listing or a comment is published.
use vstd::prelude::*;

use crate::lexicons::comment::RecordData as CommentRecord;
use crate::listing::ListingFromDb;

verus! {

/// A listing in the home page's feed: the stored listing, its author's
/// handle where it could be resolved, and the type tag `listing`.
pub struct FeedListing {
    pub listing: ListingFromDb,
    pub handle: Option<String>,
    pub record_type: &'static str,
}

/// Whether `item` shows the stored listing and resolved handle of `row`.
pub open spec fn shows_feed_row(item: FeedListing, row: (ListingFromDb, Option<String>)) -> bool {
    &&& item.listing == row.0
    &&& item.handle == row.1
    &&& item.record_type@ == "listing"@
}

/// A listing in the feed, with its author's handle.
pub fn feed_listing(listing: ListingFromDb, handle: Option<String>) -> (item: FeedListing)
    ensures
        shows_feed_row(item, (listing, handle)),
{
    FeedListing { listing, handle, record_type: "listing" }
}

/// The home page's feed of listings for what loading the latest listings
/// gave, each with its author's resolved handle: one item per listing, in
/// order, or none where loading failed.
pub fn recent_listings<E>(loaded: Result<Vec<(ListingFromDb, Option<String>)>, E>) -> (feed: Vec<FeedListing>)
    ensures
        match loaded {
            Ok(rows) => {
                &&& feed@.len() == rows@.len()
                &&& forall|i: int| 0 <= i < rows@.len() ==> shows_feed_row(#[trigger] feed@[i], rows@[i])
            },
            Err(_) => feed@.len() == 0,
        },
{
    match loaded {
        Ok(rows) => {
            let ghost all = rows@;
            let mut rows = rows;
            let mut feed: Vec<FeedListing> = Vec::new();
            while rows.len() > 0
                invariant
                    feed@.len() + rows@.len() == all.len(),
                    rows@ == all.subrange(feed@.len() as int, all.len() as int),
                    forall|i: int| 0 <= i < feed@.len() ==> shows_feed_row(#[trigger] feed@[i], all[i]),
                decreases rows@.len(),
            {
                let ghost k = feed@.len() as int;
                let (listing, handle) = rows.remove(0);
                assert(all[k] == (listing, handle));
                feed.push(feed_listing(listing, handle));
                assert(rows@ =~= all.subrange(feed@.len() as int, all.len() as int));
            }
            feed
        },
        Err(_) => Vec::new(),
    }
}

/// A published listing as it is broadcast: the stored listing with the type
/// tag `listing`.
pub struct ListingBroadcast {
    pub listing: ListingFromDb,
    pub record_type: &'static str,
}

/// The broadcast of a published listing.
pub fn listing_broadcast(listing: ListingFromDb) -> (b: ListingBroadcast)
    ensures
        b.listing == listing,
        b.record_type@ == "listing"@,
{
    ListingBroadcast { listing, record_type: "listing" }
}

/// A stored listing with its author's handle, as the listing handler
/// answers.
pub struct ListingWithHandle {
    pub listing: ListingFromDb,
    pub handle: Option<String>,
}

/// The answer to publishing a listing.
pub fn listing_with_handle(listing: ListingFromDb, handle: Option<String>) -> (a: ListingWithHandle)
    ensures
        a.listing == listing,
        a.handle == handle,
{
    ListingWithHandle { listing, handle }
}

/// A comment as the index gives it back.
pub struct CommentRow {
    pub uri: String,
    pub author_did: String,
    pub subject_uri: String,
    pub content: String,
    pub created_at: String,
    pub indexed_at: String,
    pub seen_on_jetstream: usize,
    pub created_via_this_app: usize,
}

/// A comment with its author's handle.
pub struct CommentWithHandle {
    pub comment: CommentRow,
    pub handle: Option<String>,
}

/// The listing page: the stored listing, its author's handle, its URI, and
/// its comments with their authors' handles, oldest first.
pub struct ListingPage {
    pub listing: ListingFromDb,
    pub handle: Option<String>,
    pub uri: String,
    pub comments: Vec<CommentWithHandle>,
}

/// Whether `item` shows the comment and resolved handle of `row`.
pub open spec fn shows_comment_row(item: CommentWithHandle, row: (CommentRow, Option<String>)) -> bool {
    &&& item.comment == row.0
    &&& item.handle == row.1
}

/// The listing page for a stored listing, its author's handle, and its
/// comments as loaded, each with its author's handle.
pub fn listing_page(
    listing: ListingFromDb,
    handle: Option<String>,
    comments: Vec<(CommentRow, Option<String>)>,
) -> (page: ListingPage)
    ensures
        page.listing == listing,
        page.handle == handle,
        page.uri == listing.uri,
        page.comments@.len() == comments@.len(),
        forall|i: int|
            0 <= i < comments@.len() ==> shows_comment_row(#[trigger] page.comments@[i], comments@[i]),
{
    let ghost all = comments@;
    let mut rows = comments;
    let mut shown: Vec<CommentWithHandle> = Vec::new();
    while rows.len() > 0
        invariant
            shown@.len() + rows@.len() == all.len(),
            rows@ == all.subrange(shown@.len() as int, all.len() as int),
            forall|i: int| 0 <= i < shown@.len() ==> shows_comment_row(#[trigger] shown@[i], all[i]),
        decreases rows@.len(),
    {
        let ghost k = shown@.len() as int;
        let (comment, author_handle) = rows.remove(0);
        assert(all[k] == (comment, author_handle));
        shown.push(CommentWithHandle { comment, handle: author_handle });
        assert(rows@ =~= all.subrange(shown@.len() as int, all.len() as int));
    }
    let uri = listing.uri.clone();
    ListingPage { listing, handle, uri, comments: shown }
}

/// A posted comment as it is broadcast and answered: the comment record,
/// the URI it was published at, its author, and the type tag `comment`.
pub struct CommentBroadcast {
    pub content: String,
    pub subject: String,
    pub created_at: String,
    pub uri: String,
    pub author_did: String,
    pub record_type: &'static str,
}

/// The broadcast of the comment `record` published at `uri` by `author_did`.
pub fn comment_broadcast(record: CommentRecord, uri: String, author_did: String) -> (b: CommentBroadcast)
    ensures
        b.content == record.content,
        b.subject == record.subject,
        b.created_at == record.created_at,
        b.uri == uri,
        b.author_did == author_did,
        b.record_type@ == "comment"@,
{
    CommentBroadcast {
        content: record.content,
        subject: record.subject,
        created_at: record.created_at,
        uri,
        author_did,
        record_type: "comment",
    }
}

} // verus!
