//! The query behind the map search of listings.
use vstd::prelude::*;
use vstd::string::*;

verus! {

/// Open listings inside a latitude/longitude box (parameters 1 to 4), newest first.
pub const AREA_SEARCH_SQL: &'static str = "SELECT * FROM listings WHERE latitude IS NOT NULL AND longitude IS NOT NULL AND CAST(latitude AS REAL) >= ?1 AND CAST(latitude AS REAL) <= ?2 AND CAST(longitude AS REAL) >= ?3 AND CAST(longitude AS REAL) <= ?4 AND NOT EXISTS (SELECT 1 FROM comments c WHERE c.subjectUri = listings.uri AND c.authorDid = listings.authorDid AND LOWER(c.content) = 'closed') ORDER BY indexedAt DESC LIMIT 100";

/// Open listings inside a latitude/longitude box (parameters 1 to 4) whose
/// title or description matches the pattern in parameter 5, newest first.
pub const AREA_TEXT_SEARCH_SQL: &'static str = "SELECT * FROM listings WHERE latitude IS NOT NULL AND longitude IS NOT NULL AND CAST(latitude AS REAL) >= ?1 AND CAST(latitude AS REAL) <= ?2 AND CAST(longitude AS REAL) >= ?3 AND CAST(longitude AS REAL) <= ?4 AND (title LIKE ?5 OR description LIKE ?5) AND NOT EXISTS (SELECT 1 FROM comments c WHERE c.subjectUri = listings.uri AND c.authorDid = listings.authorDid AND LOWER(c.content) = 'closed') ORDER BY indexedAt DESC LIMIT 100";

/// The statement to run for a map search and the text pattern to bind
/// to it, if the search has one.
pub struct ListingSearch {
    pub sql: &'static str,
    pub pattern: Option<String>,
}

/// The `LIKE` pattern for the search text `q`: `%q%` where `q` is given and
/// not empty.
pub open spec fn search_pattern_of(q: Option<String>) -> Option<Seq<char>> {
    match q {
        Some(t) => if t@.len() > 0 {
            Some("%"@ + t@ + "%"@)
        } else {
            None
        },
        None => None,
    }
}

/// Whether `p` is `t` between two `%`: it starts and ends with `%`, and
/// what stands between them is `t`, whole.
pub open spec fn is_like_pattern_for(p: Seq<char>, t: Seq<char>) -> bool {
    &&& p.len() == t.len() + 2
    &&& p[0] == '%'
    &&& p[p.len() - 1] == '%'
    &&& p.subrange(1, p.len() - 1) == t
}

/// The pattern for a non-empty search text is that text between two `%`,
/// whatever its length; an empty or missing text has no pattern.
pub proof fn lemma_search_pattern_wraps_text(q: Option<String>)
    ensures
        (q matches Some(t) && t@.len() > 0) ==> search_pattern_of(q) is Some && is_like_pattern_for(
            search_pattern_of(q)->0,
            q->0@,
        ),
        (q is None || q->0@.len() == 0) ==> search_pattern_of(q) is None,
{
    reveal_strlit("%");
    if let Some(t) = q {
        if t@.len() > 0 {
            let p = "%"@ + t@ + "%"@;
            assert(p.subrange(1, p.len() - 1) =~= t@);
        }
    }
}

/// The map search for the optional search text `q`.
pub fn listing_search(q: Option<String>) -> (search: ListingSearch)
    ensures
        search.pattern is Some == search_pattern_of(q) is Some,
        search.pattern matches Some(p) ==> p@ == search_pattern_of(q)->0,
        search.sql == (if search.pattern is Some { AREA_TEXT_SEARCH_SQL } else { AREA_SEARCH_SQL }),
        (q matches Some(t) && t@.len() > 0) ==> search.pattern is Some && is_like_pattern_for(
            search.pattern->0@,
            q->0@,
        ),
        (q is None || q->0@.len() == 0) ==> search.pattern is None,
{
    let ghost q0 = q;
    let has_q = match &q {
        Some(t) => !t.as_str().is_empty(),
        None => false,
    };
    let q_param = match q {
        Some(t) => t,
        None => String::new(),
    };
    let mut search_pattern = "%".to_owned();
    search_pattern.append(q_param.as_str());
    search_pattern.append("%");
    proof {
        lemma_search_pattern_wraps_text(q0);
    }
    if has_q {
        ListingSearch { sql: AREA_TEXT_SEARCH_SQL, pattern: Some(search_pattern) }
    } else {
        ListingSearch { sql: AREA_SEARCH_SQL, pattern: None }
    }
}

} // verus!
