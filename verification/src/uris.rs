//! AT-URIs of listings and the record keys inside them.
use vstd::prelude::*;
use vstd::string::*;

verus! {

/// The characters after the last `/` of `s`; all of `s` where it holds no `/`.
pub open spec fn key_after_last_slash(s: Seq<char>) -> Seq<char>
    decreases s.len(),
{
    if s.len() == 0 {
        s
    } else if s.last() == '/' {
        Seq::empty()
    } else {
        key_after_last_slash(s.drop_last()).push(s.last())
    }
}

/// Whether `s` holds no `/`.
pub open spec fn has_no_slash(s: Seq<char>) -> bool {
    forall|k: int| 0 <= k < s.len() ==> s[k] != '/'
}

/// The AT-URI of the listing record `rkey` in the repository of `did`.
pub open spec fn listing_uri_of(did: Seq<char>, rkey: Seq<char>) -> Seq<char> {
    "at://"@ + did + "/xyz.mercato.listing/"@ + rkey
}

proof fn lemma_key_after_slash_at(s: Seq<char>, i: int)
    requires
        0 <= i <= s.len(),
        i == 0 || s[i - 1] == '/',
        forall|k: int| i <= k < s.len() ==> s[k] != '/',
    ensures
        key_after_last_slash(s) == s.subrange(i, s.len() as int),
    decreases s.len(),
{
    if s.len() == i {
        assert(s.subrange(i, s.len() as int) =~= Seq::<char>::empty());
    } else {
        let t = s.drop_last();
        lemma_key_after_slash_at(t, i);
        assert(t.subrange(i, t.len() as int).push(s.last()) =~= s.subrange(i, s.len() as int));
    }
}

proof fn lemma_key_after_slash_suffix(p: Seq<char>, r: Seq<char>)
    requires
        p.len() > 0,
        p.last() == '/',
        has_no_slash(r),
    ensures
        key_after_last_slash(p + r) == r,
{
    let s = p + r;
    assert forall|k: int| p.len() <= k < s.len() implies s[k] != '/' by {
        assert(s[k] == r[k - p.len()]);
    }
    lemma_key_after_slash_at(s, p.len() as int);
    assert(s.subrange(p.len() as int, s.len() as int) =~= r);
}

/// The record key of an AT-URI: the text after its last `/`.
pub fn record_key(uri: &str) -> (key: String)
    ensures
        key@ == key_after_last_slash(uri@),
{
    let n: usize = uri.unicode_len();
    let mut i: usize = n;
    loop
        invariant
            n == uri@.len(),
            i <= n,
            forall|k: int| i <= k < n ==> uri@[k] != '/',
        ensures
            i <= n,
            i == 0 || uri@[i - 1] == '/',
            forall|k: int| i <= k < n ==> uri@[k] != '/',
        decreases i,
    {
        if i == 0 {
            break;
        }
        if uri.get_char(i - 1) == '/' {
            break;
        }
        i = i - 1;
    }
    proof {
        lemma_key_after_slash_at(uri@, i as int);
    }
    uri.substring_char(i, n).to_owned()
}

/// The AT-URI of the listing record `rkey` in the repository of `did`:
/// `at://{did}/xyz.mercato.listing/{rkey}`.
pub fn listing_uri(did: &str, rkey: &str) -> (uri: String)
    ensures
        uri@ == listing_uri_of(did@, rkey@),
{
    let mut uri = "at://".to_owned();
    uri.append(did);
    uri.append("/xyz.mercato.listing/");
    uri.append(rkey);
    uri
}

/// A record key without `/` is read back from the listing URI built from it.
pub proof fn lemma_record_key_of_listing_uri(did: Seq<char>, rkey: Seq<char>)
    requires
        has_no_slash(rkey),
    ensures
        key_after_last_slash(listing_uri_of(did, rkey)) == rkey,
{
    reveal_strlit("/xyz.mercato.listing/");
    let p = "at://"@ + did + "/xyz.mercato.listing/"@;
    assert(p.last() == '/');
    lemma_key_after_slash_suffix(p, rkey);
}

} // verus!
