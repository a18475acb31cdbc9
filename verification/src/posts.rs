//! The Bluesky feed posts that announce a new status or a new listing.
use vstd::prelude::*;
use vstd::string::*;
use vstd::utf8::encode_utf8;

use crate::text::same_text;
use crate::uris::{
    has_no_slash, key_after_last_slash, lemma_record_key_of_listing_uri, listing_uri_of, record_key,
};

verus! {

/// The text of the feed post that announces the status `status`.
pub open spec fn status_post_text_of(status: Seq<char>) -> Seq<char> {
    "I am currently feeling "@ + status + " (via statusphere!)"@
}

/// The status announcement holds the whole status, verbatim, between the
/// fixed opening `I am currently feeling ` and the closing
/// ` (via statusphere!)`, whatever the status is.
pub proof fn lemma_status_post_text_holds_status(status: Seq<char>)
    ensures
        status_post_text_of(status).len() == status.len() + 42,
        status_post_text_of(status).subrange(0, 23) == "I am currently feeling "@,
        status_post_text_of(status).subrange(23, (23 + status.len()) as int) == status,
        status_post_text_of(status).subrange((23 + status.len()) as int, (status.len() + 42) as int)
            == " (via statusphere!)"@,
{
    reveal_strlit("I am currently feeling ");
    reveal_strlit(" (via statusphere!)");
    let t = status_post_text_of(status);
    assert(t.subrange(0, 23) =~= "I am currently feeling "@);
    assert(t.subrange(23, (23 + status.len()) as int) =~= status);
    assert(t.subrange((23 + status.len()) as int, (status.len() + 42) as int) =~= " (via statusphere!)"@);
}

/// The word that tells an offer from a request: `OFFERED` for the role
/// `maker`, `WANTED` for any other role.
pub open spec fn listing_prefix_of(role: Seq<char>) -> Seq<char> {
    if role == "maker"@ {
        "OFFERED"@
    } else {
        "WANTED"@
    }
}

/// The web link of a listing: `{base_url}/listing/{did}/{rkey}`.
pub open spec fn listing_link_of(base_url: Seq<char>, did: Seq<char>, rkey: Seq<char>) -> Seq<char> {
    base_url + "/listing/"@ + did + "/"@ + rkey
}

/// What stands before the link in a listing announcement.
pub open spec fn listing_post_head_of(prefix: Seq<char>, title: Seq<char>) -> Seq<char> {
    "New item "@ + prefix + " on Mercato: "@ + title + " \u{1F3F7}\u{FE0F}\n\nView details: "@
}

/// The text of the feed post that announces a listing.
pub open spec fn listing_post_text_of(prefix: Seq<char>, title: Seq<char>, link: Seq<char>) -> Seq<char> {
    listing_post_head_of(prefix, title) + link
}

/// Whether `needle` stands in `hay` at byte offset `i`.
pub open spec fn occurs_at(hay: Seq<u8>, needle: Seq<u8>, i: int) -> bool {
    &&& 0 <= i
    &&& i + needle.len() <= hay.len()
    &&& hay.subrange(i, i + needle.len()) == needle
}

/// Whether `i` is the first offset at which `needle` stands in `hay`.
pub open spec fn first_occurrence_at(hay: Seq<u8>, needle: Seq<u8>, i: int) -> bool {
    &&& occurs_at(hay, needle, i)
    &&& forall|j: int| 0 <= j < i ==> !occurs_at(hay, needle, j)
}

/// The UTF-8 encoding of a concatenation is the concatenation of the encodings.
pub proof fn lemma_encode_utf8_concat(a: Seq<char>, b: Seq<char>)
    ensures
        encode_utf8(a + b) == encode_utf8(a) + encode_utf8(b),
    decreases a.len(),
{
    if a.len() == 0 {
        assert(a + b =~= b);
        assert(encode_utf8(a) =~= Seq::<u8>::empty());
        assert(encode_utf8(a) + encode_utf8(b) =~= encode_utf8(b));
    } else {
        lemma_encode_utf8_concat(a.drop_first(), b);
        assert((a + b).drop_first() =~= a.drop_first() + b);
        assert((a + b)[0] == a[0]);
    }
}

/// The first byte offset at which `needle` stands in `hay`, if any.
pub fn find_bytes(hay: &[u8], needle: &[u8]) -> (found: Option<usize>)
    ensures
        match found {
            Some(i) => first_occurrence_at(hay@, needle@, i as int),
            None => forall|j: int| !occurs_at(hay@, needle@, j),
        },
{
    let h: usize = hay.len();
    let m: usize = needle.len();
    if m > h {
        return None;
    }
    let last: usize = h - m;
    let mut i: usize = 0;
    loop
        invariant
            h == hay@.len(),
            m == needle@.len(),
            m <= h,
            last == h - m,
            i <= last,
            forall|j: int| 0 <= j < i ==> !occurs_at(hay@, needle@, j),
        ensures
            forall|j: int| 0 <= j <= last ==> !occurs_at(hay@, needle@, j),
        decreases last - i,
    {
        let mut k: usize = 0;
        let mut same = true;
        while k < m
            invariant
                h == hay@.len(),
                m == needle@.len(),
                i + m <= h,
                k <= m,
                same ==> forall|t: int| 0 <= t < k ==> hay@[i + t] == needle@[t],
                !same ==> !occurs_at(hay@, needle@, i as int),
            decreases m - k,
        {
            if hay[i + k] != needle[k] {
                same = false;
                assert(hay@.subrange(i as int, i + m)[k as int] != needle@[k as int]);
            }
            k = k + 1;
        }
        if same {
            assert(hay@.subrange(i as int, i + m) =~= needle@);
            return Some(i);
        }
        if i == last {
            break;
        }
        i = i + 1;
    }
    None
}

/// The link in the announcement of the listing stored as record `rkey` in
/// the repository of `did` leads to `/listing/{did}/{rkey}`, the page that
/// looks that same listing up again.
pub proof fn lemma_listing_link_names_record(base_url: Seq<char>, did: Seq<char>, rkey: Seq<char>)
    requires
        has_no_slash(rkey),
    ensures
        listing_link_of(base_url, did, key_after_last_slash(listing_uri_of(did, rkey)))
            == base_url + "/listing/"@ + did + "/"@ + rkey,
{
    lemma_record_key_of_listing_uri(did, rkey);
}

/// The text of the feed post that announces the status `status`.
pub fn status_post_text(status: &str) -> (text: String)
    ensures
        text@ == status_post_text_of(status@),
        text@.len() == status@.len() + 42,
        text@.subrange(0, 23) == "I am currently feeling "@,
        text@.subrange(23, (23 + status@.len()) as int) == status@,
        text@.subrange((23 + status@.len()) as int, text@.len() as int) == " (via statusphere!)"@,
{
    let mut text = "I am currently feeling ".to_owned();
    text.append(status);
    text.append(" (via statusphere!)");
    proof {
        lemma_status_post_text_holds_status(status@);
    }
    text
}

/// A listing announcement: its text, the link it carries, and the byte
/// range of that link in the text (where the link facet goes).
pub struct ListingPost {
    pub text: String,
    pub link: String,
    pub byte_start: usize,
    pub byte_end: usize,
}

/// The announcement of the listing titled `title`, with role `role`,
/// stored at `record_uri` in the repository of `did`, linked from `base_url`.
pub fn listing_post(title: &str, role: &str, base_url: &str, did: &str, record_uri: &str) -> (post: ListingPost)
    ensures
        post.link@ == listing_link_of(base_url@, did@, key_after_last_slash(record_uri@)),
        post.text@ == listing_post_text_of(listing_prefix_of(role@), title@, post.link@),
        first_occurrence_at(encode_utf8(post.text@), encode_utf8(post.link@), post.byte_start as int),
        post.byte_end == post.byte_start + encode_utf8(post.link@).len(),
        post.byte_end <= encode_utf8(post.text@).len(),
        encode_utf8(post.text@).subrange(post.byte_start as int, post.byte_end as int)
            == encode_utf8(post.link@),
{
    let rkey = record_key(record_uri);
    let mut link = base_url.to_owned();
    link.append("/listing/");
    link.append(did);
    link.append("/");
    link.append(rkey.as_str());
    let prefix = if same_text(role, "maker") {
        "OFFERED"
    } else {
        "WANTED"
    };
    let mut text = "New item ".to_owned();
    text.append(prefix);
    text.append(" on Mercato: ");
    text.append(title);
    text.append(" \u{1F3F7}\u{FE0F}\n\nView details: ");
    let ghost head = text@;
    text.append(link.as_str());
    let text_bytes = text.as_str().as_bytes();
    let link_bytes = link.as_str().as_bytes();
    proof {
        lemma_encode_utf8_concat(head, link@);
        let hb = encode_utf8(head);
        let lb = encode_utf8(link@);
        assert((hb + lb).subrange(hb.len() as int, (hb.len() + lb.len()) as int) =~= lb);
        assert(occurs_at(text_bytes@, link_bytes@, hb.len() as int));
    }
    let byte_start: usize = match find_bytes(text_bytes, link_bytes) {
        Some(i) => i,
        None => 0,
    };
    let text_len: usize = text_bytes.len();
    assert(byte_start + link_bytes@.len() <= text_len);
    let byte_end: usize = byte_start + link_bytes.len();
    ListingPost { text, link, byte_start, byte_end }
}

} // verus!
