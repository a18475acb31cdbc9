//! The statements the listing index runs, with the values bound to their
//! numbered parameters (`?1` is the first value).
use vstd::prelude::*;

use crate::instant::Instant;
use crate::listing::Listing;
use crate::text::copy_opt;
use crate::uris::{listing_uri, listing_uri_of};

verus! {

/// A value bound to a statement parameter.
pub enum SqlParam {
    Text(String),
    MaybeText(Option<String>),
    Time(Instant),
    Flag(bool),
    Count(u64),
}

/// A statement and the values bound to its parameters, in order.
pub struct Statement {
    pub sql: &'static str,
    pub params: Vec<SqlParam>,
}

pub const SAVE_STATUS_OPTIMISTIC_SQL: &'static str = "INSERT INTO status (uri, authorDid, status, createdAt, indexedAt, seenOnJetstream, createdViaThisApp) VALUES (?1, ?2, ?3, ?4, ?5, FALSE, TRUE)
                      ON CONFLICT (uri)
                      DO UPDATE
                      SET
                        createdViaThisApp = TRUE
                      RETURNING *
                      ";

pub const SAVE_STATUS_FROM_JETSTREAM_SQL: &'static str = "INSERT INTO status (uri, authorDid, status, createdAt, indexedAt, seenOnJetstream, createdViaThisApp) VALUES (?1, ?2, ?3, ?4, ?5, TRUE, FALSE)
                      ON CONFLICT (uri)
                      DO UPDATE
                      SET
                        status = ?6,
                        indexedAt = ?7,
                        seenOnJetstream = TRUE 
                      RETURNING *
                      ";

pub const DELETE_STATUS_SQL: &'static str = "DELETE FROM status WHERE uri = ?1";

pub const LOAD_LATEST_STATUSES_SQL: &'static str = "SELECT * FROM status ORDER BY indexedAt DESC LIMIT ?1";

pub const SAVE_LISTING_OPTIMISTIC_SQL: &'static str = "INSERT INTO listings (uri, authorDid, title, description, role, price, barterFor, latitude, longitude, altitude, locationName, imageCid, createdAt, indexedAt, seenOnJetstream, createdViaThisApp) 
                      VALUES (?1, ?2, ?3, ?4, ?5, ?6, ?7, ?8, ?9, ?10, ?11, ?12, ?13, ?14, FALSE, TRUE)
                      ON CONFLICT (uri)
                      DO UPDATE
                      SET
                        createdViaThisApp = TRUE
                      RETURNING *
                      ";

pub const SAVE_LISTING_FROM_JETSTREAM_SQL: &'static str = "INSERT INTO listings (uri, authorDid, title, description, role, price, barterFor, latitude, longitude, altitude, locationName, imageCid, createdAt, indexedAt, seenOnJetstream, createdViaThisApp) 
                      VALUES (?1, ?2, ?3, ?4, ?5, ?6, ?7, ?8, ?9, ?10, ?11, ?12, ?13, ?14, TRUE, FALSE)
                      ON CONFLICT (uri)
                      DO UPDATE
                      SET
                        title = ?15,
                        description = ?16,
                        role = ?17,
                        price = ?18,
                        barterFor = ?19,
                        latitude = ?20,
                        longitude = ?21,
                        altitude = ?22,
                        locationName = ?23,
                        imageCid = ?24,
                        indexedAt = ?25,
                        seenOnJetstream = TRUE 
                      RETURNING *
                      ";

pub const LOAD_LATEST_LISTINGS_SQL: &'static str = "SELECT * FROM listings WHERE NOT EXISTS (SELECT 1 FROM comments c WHERE c.subjectUri = listings.uri AND c.authorDid = listings.authorDid AND LOWER(c.content) = 'closed') ORDER BY indexedAt DESC LIMIT ?1";

pub const DELETE_LISTING_SQL: &'static str = "DELETE FROM listings WHERE uri = ?1";

pub const GET_LISTING_SQL: &'static str = "SELECT * FROM listings WHERE uri = ?1";

pub const SAVE_COMMENT_SQL: &'static str = "INSERT INTO comments (uri, authorDid, subjectUri, content, createdAt, indexedAt, seenOnJetstream, createdViaThisApp) 
                      VALUES (?1, ?2, ?3, ?4, ?5, ?6, ?7, ?8)
                      ON CONFLICT (uri) DO NOTHING";

pub const LOAD_COMMENTS_SQL: &'static str = "SELECT * FROM comments WHERE subjectUri = ?1 ORDER BY createdAt ASC";

pub const GET_JETSTREAM_CURSOR_SQL: &'static str = "SELECT last_seen_timestamp FROM jetstream_cursor";

pub const UPDATE_JETSTREAM_CURSOR_SQL: &'static str = "UPDATE jetstream_cursor SET last_seen_timestamp = ?1";

pub const INSERT_JETSTREAM_CURSOR_SQL: &'static str = "INSERT INTO jetstream_cursor (last_seen_timestamp) VALUES (?1)";

/// The values of a status's columns, in the order of the insert statements'
/// parameters `?1` to `?5`.
pub open spec fn status_columns_of(
    uri: String,
    author_did: String,
    status: String,
    created_at: Instant,
    indexed_at: Instant,
) -> Seq<SqlParam> {
    seq![
        SqlParam::Text(uri),
        SqlParam::Text(author_did),
        SqlParam::Text(status),
        SqlParam::Time(created_at),
        SqlParam::Time(indexed_at),
    ]
}

fn status_columns(
    uri: &String,
    author_did: &String,
    status: &String,
    created_at: Instant,
    indexed_at: Instant,
) -> (params: Vec<SqlParam>)
    ensures
        params@ == status_columns_of(*uri, *author_did, *status, created_at, indexed_at),
{
    let mut params: Vec<SqlParam> = Vec::new();
    params.push(SqlParam::Text(uri.clone()));
    params.push(SqlParam::Text(author_did.clone()));
    params.push(SqlParam::Text(status.clone()));
    params.push(SqlParam::Time(created_at));
    params.push(SqlParam::Time(indexed_at));
    assert(params@ =~= status_columns_of(*uri, *author_did, *status, created_at, indexed_at));
    params
}

/// Saving a status published through this app: inserts it, or marks an
/// already stored row as created through this app.
pub fn save_status_optimistic_statement(
    uri: &String,
    author_did: &String,
    status: &String,
    created_at: Instant,
    indexed_at: Instant,
) -> (st: Statement)
    ensures
        st.sql == SAVE_STATUS_OPTIMISTIC_SQL,
        st.params@ == status_columns_of(*uri, *author_did, *status, created_at, indexed_at),
        st.params@.len() == 5,
        st.params@[0] == SqlParam::Text(*uri),
        st.params@[1] == SqlParam::Text(*author_did),
        st.params@[2] == SqlParam::Text(*status),
        st.params@[3] == SqlParam::Time(created_at),
        st.params@[4] == SqlParam::Time(indexed_at),
{
    Statement {
        sql: SAVE_STATUS_OPTIMISTIC_SQL,
        params: status_columns(uri, author_did, status, created_at, indexed_at),
    }
}

/// Saving a status seen on jetstream: inserts it, or writes its status and
/// indexing time over the stored row and marks the row as seen on jetstream.
pub fn save_status_from_jetstream_statement(
    uri: &String,
    author_did: &String,
    status: &String,
    created_at: Instant,
    indexed_at: Instant,
) -> (st: Statement)
    ensures
        st.sql == SAVE_STATUS_FROM_JETSTREAM_SQL,
        st.params@ == status_columns_of(*uri, *author_did, *status, created_at, indexed_at)
            + seq![SqlParam::Text(*status), SqlParam::Time(indexed_at)],
        st.params@.len() == 7,
        st.params@[0] == SqlParam::Text(*uri),
        st.params@[1] == SqlParam::Text(*author_did),
        st.params@[2] == SqlParam::Text(*status),
        st.params@[3] == SqlParam::Time(created_at),
        st.params@[4] == SqlParam::Time(indexed_at),
        st.params@[5] == SqlParam::Text(*status),
        st.params@[6] == SqlParam::Time(indexed_at),
{
    let mut params = status_columns(uri, author_did, status, created_at, indexed_at);
    params.push(SqlParam::Text(status.clone()));
    params.push(SqlParam::Time(indexed_at));
    assert(params@ =~= status_columns_of(*uri, *author_did, *status, created_at, indexed_at)
        + seq![SqlParam::Text(*status), SqlParam::Time(indexed_at)]);
    Statement { sql: SAVE_STATUS_FROM_JETSTREAM_SQL, params }
}

/// Deleting the status stored at `uri`.
pub fn delete_status_statement(uri: &str) -> (st: Statement)
    ensures
        st.sql == DELETE_STATUS_SQL,
        st.params@.len() == 1,
        st.params@[0] matches SqlParam::Text(u) && u@ == uri@,
{
    let mut params: Vec<SqlParam> = Vec::new();
    params.push(SqlParam::Text(uri.to_owned()));
    Statement { sql: DELETE_STATUS_SQL, params }
}

/// Loading the `n` most recently indexed statuses.
pub fn load_latest_statuses_statement(n: usize) -> (st: Statement)
    ensures
        st.sql == LOAD_LATEST_STATUSES_SQL,
        st.params@.len() == 1,
        st.params@[0] matches SqlParam::Count(c) && c == n,
{
    let mut params: Vec<SqlParam> = Vec::new();
    params.push(SqlParam::Count(n as u64));
    Statement { sql: LOAD_LATEST_STATUSES_SQL, params }
}

/// The values of a listing's columns, in the order of the insert statements'
/// parameters `?1` to `?14`.
pub open spec fn listing_columns_of(l: Listing) -> Seq<SqlParam> {
    seq![
        SqlParam::Text(l.uri),
        SqlParam::Text(l.author_did),
        SqlParam::Text(l.title),
        SqlParam::MaybeText(l.description),
        SqlParam::Text(l.role),
        SqlParam::MaybeText(l.price),
        SqlParam::MaybeText(l.barter_for),
        SqlParam::MaybeText(l.latitude),
        SqlParam::MaybeText(l.longitude),
        SqlParam::MaybeText(l.altitude),
        SqlParam::MaybeText(l.location_name),
        SqlParam::MaybeText(l.image_cid),
        SqlParam::Time(l.created_at),
        SqlParam::Time(l.indexed_at),
    ]
}

/// The values that a listing seen on jetstream writes over a stored row,
/// in the order of the parameters `?15` to `?25`: every column but the
/// URI, the author and the creation time.
pub open spec fn listing_updates_of(l: Listing) -> Seq<SqlParam> {
    seq![
        SqlParam::Text(l.title),
        SqlParam::MaybeText(l.description),
        SqlParam::Text(l.role),
        SqlParam::MaybeText(l.price),
        SqlParam::MaybeText(l.barter_for),
        SqlParam::MaybeText(l.latitude),
        SqlParam::MaybeText(l.longitude),
        SqlParam::MaybeText(l.altitude),
        SqlParam::MaybeText(l.location_name),
        SqlParam::MaybeText(l.image_cid),
        SqlParam::Time(l.indexed_at),
    ]
}

fn push_listing_columns(params: &mut Vec<SqlParam>, l: &Listing)
    ensures
        final(params)@ == old(params)@ + listing_columns_of(*l),
{
    params.push(SqlParam::Text(l.uri.clone()));
    params.push(SqlParam::Text(l.author_did.clone()));
    params.push(SqlParam::Text(l.title.clone()));
    params.push(SqlParam::MaybeText(copy_opt(&l.description)));
    params.push(SqlParam::Text(l.role.clone()));
    params.push(SqlParam::MaybeText(copy_opt(&l.price)));
    params.push(SqlParam::MaybeText(copy_opt(&l.barter_for)));
    params.push(SqlParam::MaybeText(copy_opt(&l.latitude)));
    params.push(SqlParam::MaybeText(copy_opt(&l.longitude)));
    params.push(SqlParam::MaybeText(copy_opt(&l.altitude)));
    params.push(SqlParam::MaybeText(copy_opt(&l.location_name)));
    params.push(SqlParam::MaybeText(copy_opt(&l.image_cid)));
    params.push(SqlParam::Time(l.created_at));
    params.push(SqlParam::Time(l.indexed_at));
}

/// Saving a listing published through this app: inserts it, or marks an
/// already stored row as created through this app.
pub fn save_listing_optimistic_statement(listing: &Listing) -> (st: Statement)
    ensures
        st.sql == SAVE_LISTING_OPTIMISTIC_SQL,
        st.params@ == listing_columns_of(*listing),
        st.params@.len() == 14,
        st.params@[0] == SqlParam::Text(listing.uri),
        st.params@[1] == SqlParam::Text(listing.author_did),
        st.params@[2] == SqlParam::Text(listing.title),
        st.params@[3] == SqlParam::MaybeText(listing.description),
        st.params@[4] == SqlParam::Text(listing.role),
        st.params@[5] == SqlParam::MaybeText(listing.price),
        st.params@[6] == SqlParam::MaybeText(listing.barter_for),
        st.params@[7] == SqlParam::MaybeText(listing.latitude),
        st.params@[8] == SqlParam::MaybeText(listing.longitude),
        st.params@[9] == SqlParam::MaybeText(listing.altitude),
        st.params@[10] == SqlParam::MaybeText(listing.location_name),
        st.params@[11] == SqlParam::MaybeText(listing.image_cid),
        st.params@[12] == SqlParam::Time(listing.created_at),
        st.params@[13] == SqlParam::Time(listing.indexed_at),
{
    let mut params: Vec<SqlParam> = Vec::new();
    push_listing_columns(&mut params, listing);
    assert(params@ =~= listing_columns_of(*listing));
    Statement { sql: SAVE_LISTING_OPTIMISTIC_SQL, params }
}

/// Saving a listing seen on jetstream: inserts it, or writes its content
/// over the stored row and marks the row as seen on jetstream.
pub fn save_listing_from_jetstream_statement(listing: &Listing) -> (st: Statement)
    ensures
        st.sql == SAVE_LISTING_FROM_JETSTREAM_SQL,
        st.params@ == listing_columns_of(*listing) + listing_updates_of(*listing),
        st.params@.len() == 25,
        st.params@.subrange(14, 24) == listing_columns_of(*listing).subrange(2, 12),
        st.params@[24] == listing_columns_of(*listing)[13],
        st.params@[0] == SqlParam::Text(listing.uri),
        st.params@[1] == SqlParam::Text(listing.author_did),
        st.params@[2] == SqlParam::Text(listing.title),
        st.params@[3] == SqlParam::MaybeText(listing.description),
        st.params@[4] == SqlParam::Text(listing.role),
        st.params@[5] == SqlParam::MaybeText(listing.price),
        st.params@[6] == SqlParam::MaybeText(listing.barter_for),
        st.params@[7] == SqlParam::MaybeText(listing.latitude),
        st.params@[8] == SqlParam::MaybeText(listing.longitude),
        st.params@[9] == SqlParam::MaybeText(listing.altitude),
        st.params@[10] == SqlParam::MaybeText(listing.location_name),
        st.params@[11] == SqlParam::MaybeText(listing.image_cid),
        st.params@[12] == SqlParam::Time(listing.created_at),
        st.params@[13] == SqlParam::Time(listing.indexed_at),
        st.params@[14] == SqlParam::Text(listing.title),
        st.params@[15] == SqlParam::MaybeText(listing.description),
        st.params@[16] == SqlParam::Text(listing.role),
        st.params@[17] == SqlParam::MaybeText(listing.price),
        st.params@[18] == SqlParam::MaybeText(listing.barter_for),
        st.params@[19] == SqlParam::MaybeText(listing.latitude),
        st.params@[20] == SqlParam::MaybeText(listing.longitude),
        st.params@[21] == SqlParam::MaybeText(listing.altitude),
        st.params@[22] == SqlParam::MaybeText(listing.location_name),
        st.params@[23] == SqlParam::MaybeText(listing.image_cid),
        st.params@[24] == SqlParam::Time(listing.indexed_at),
{
    let mut params: Vec<SqlParam> = Vec::new();
    push_listing_columns(&mut params, listing);
    params.push(SqlParam::Text(listing.title.clone()));
    params.push(SqlParam::MaybeText(copy_opt(&listing.description)));
    params.push(SqlParam::Text(listing.role.clone()));
    params.push(SqlParam::MaybeText(copy_opt(&listing.price)));
    params.push(SqlParam::MaybeText(copy_opt(&listing.barter_for)));
    params.push(SqlParam::MaybeText(copy_opt(&listing.latitude)));
    params.push(SqlParam::MaybeText(copy_opt(&listing.longitude)));
    params.push(SqlParam::MaybeText(copy_opt(&listing.altitude)));
    params.push(SqlParam::MaybeText(copy_opt(&listing.location_name)));
    params.push(SqlParam::MaybeText(copy_opt(&listing.image_cid)));
    params.push(SqlParam::Time(listing.indexed_at));
    assert(params@ =~= listing_columns_of(*listing) + listing_updates_of(*listing));
    assert(params@.subrange(14, 24) =~= listing_columns_of(*listing).subrange(2, 12));
    Statement { sql: SAVE_LISTING_FROM_JETSTREAM_SQL, params }
}

/// Loading the `n` newest listings that their authors have not closed.
pub fn load_latest_listings_statement(n: usize) -> (st: Statement)
    ensures
        st.sql == LOAD_LATEST_LISTINGS_SQL,
        st.params@.len() == 1,
        st.params@[0] matches SqlParam::Count(c) && c == n,
{
    let mut params: Vec<SqlParam> = Vec::new();
    params.push(SqlParam::Count(n as u64));
    Statement { sql: LOAD_LATEST_LISTINGS_SQL, params }
}

/// Deleting the listing stored at `uri`.
pub fn delete_listing_statement(uri: &str) -> (st: Statement)
    ensures
        st.sql == DELETE_LISTING_SQL,
        st.params@.len() == 1,
        st.params@[0] matches SqlParam::Text(u) && u@ == uri@,
{
    let mut params: Vec<SqlParam> = Vec::new();
    params.push(SqlParam::Text(uri.to_owned()));
    Statement { sql: DELETE_LISTING_SQL, params }
}

/// Looking up the listing record `rkey` of the repository of `did`.
pub fn get_listing_statement(did: &str, rkey: &str) -> (st: Statement)
    ensures
        st.sql == GET_LISTING_SQL,
        st.params@.len() == 1,
        st.params@[0] matches SqlParam::Text(u) && u@ == listing_uri_of(did@, rkey@),
{
    let mut params: Vec<SqlParam> = Vec::new();
    params.push(SqlParam::Text(listing_uri(did, rkey)));
    Statement { sql: GET_LISTING_SQL, params }
}

/// Saving a comment, unless one is stored at `uri` already.
pub fn save_comment_statement(
    uri: String,
    author_did: String,
    subject: String,
    content: String,
    created_at: String,
    indexed_at: Instant,
    seen_on_jetstream: bool,
    created_via_this_app: bool,
) -> (st: Statement)
    ensures
        st.sql == SAVE_COMMENT_SQL,
        st.params@ == seq![
            SqlParam::Text(uri),
            SqlParam::Text(author_did),
            SqlParam::Text(subject),
            SqlParam::Text(content),
            SqlParam::Text(created_at),
            SqlParam::Time(indexed_at),
            SqlParam::Flag(seen_on_jetstream),
            SqlParam::Flag(created_via_this_app),
        ],
{
    let mut params: Vec<SqlParam> = Vec::new();
    params.push(SqlParam::Text(uri));
    params.push(SqlParam::Text(author_did));
    params.push(SqlParam::Text(subject));
    params.push(SqlParam::Text(content));
    params.push(SqlParam::Text(created_at));
    params.push(SqlParam::Time(indexed_at));
    params.push(SqlParam::Flag(seen_on_jetstream));
    params.push(SqlParam::Flag(created_via_this_app));
    let ghost expected = seq![
        SqlParam::Text(uri),
        SqlParam::Text(author_did),
        SqlParam::Text(subject),
        SqlParam::Text(content),
        SqlParam::Text(created_at),
        SqlParam::Time(indexed_at),
        SqlParam::Flag(seen_on_jetstream),
        SqlParam::Flag(created_via_this_app),
    ];
    assert(params@ =~= expected);
    Statement { sql: SAVE_COMMENT_SQL, params }
}

/// Loading the comments on the listing at `listing_uri`, oldest first.
pub fn load_comments_statement(listing_uri: &str) -> (st: Statement)
    ensures
        st.sql == LOAD_COMMENTS_SQL,
        st.params@.len() == 1,
        st.params@[0] matches SqlParam::Text(u) && u@ == listing_uri@,
{
    let mut params: Vec<SqlParam> = Vec::new();
    params.push(SqlParam::Text(listing_uri.to_owned()));
    Statement { sql: LOAD_COMMENTS_SQL, params }
}

/// Reading the last seen jetstream cursor.
pub fn get_jetstream_cursor_statement() -> (st: Statement)
    ensures
        st.sql == GET_JETSTREAM_CURSOR_SQL,
        st.params@.len() == 0,
{
    Statement { sql: GET_JETSTREAM_CURSOR_SQL, params: Vec::new() }
}

/// Moving the jetstream cursor to `timestamp`.
pub fn update_jetstream_cursor_statement(timestamp: u64) -> (st: Statement)
    ensures
        st.sql == UPDATE_JETSTREAM_CURSOR_SQL,
        st.params@ == seq![SqlParam::Count(timestamp)],
{
    let mut params: Vec<SqlParam> = Vec::new();
    params.push(SqlParam::Count(timestamp));
    assert(params@ =~= seq![SqlParam::Count(timestamp)]);
    Statement { sql: UPDATE_JETSTREAM_CURSOR_SQL, params }
}

/// Storing the first jetstream cursor, `timestamp`.
pub fn insert_jetstream_cursor_statement(timestamp: u64) -> (st: Statement)
    ensures
        st.sql == INSERT_JETSTREAM_CURSOR_SQL,
        st.params@ == seq![SqlParam::Count(timestamp)],
{
    let mut params: Vec<SqlParam> = Vec::new();
    params.push(SqlParam::Count(timestamp));
    assert(params@ =~= seq![SqlParam::Count(timestamp)]);
    Statement { sql: INSERT_JETSTREAM_CURSOR_SQL, params }
}


/// The names in `names`, separated by `, `.
pub open spec fn comma_list(names: Seq<Seq<char>>) -> Seq<char>
    decreases names.len(),
{
    if names.len() == 0 {
        Seq::empty()
    } else if names.len() == 1 {
        names[0]
    } else {
        comma_list(names.drop_last()) + ", "@ + names.last()
    }
}

/// The decimal digits of `n`.
pub open spec fn decimal(n: nat) -> Seq<char>
    decreases n,
{
    if n < 10 {
        seq![(n + 48) as char]
    } else {
        decimal(n / 10) + seq![((n % 10) + 48) as char]
    }
}

/// The assignment `{column} = ?{n}` of an upsert's update clause.
pub open spec fn assignment(column: Seq<char>, n: nat) -> Seq<char> {
    column + " = ?"@ + decimal(n)
}

/// The columns that the status inserts give values to, in parameter order.
pub open spec fn status_insert_columns() -> Seq<Seq<char>> {
    seq!["uri"@, "authorDid"@, "status"@, "createdAt"@, "indexedAt"@]
}

/// The value that a status gives its column `name`.
pub open spec fn status_column_value(
    name: Seq<char>,
    uri: String,
    author_did: String,
    status: String,
    created_at: Instant,
    indexed_at: Instant,
) -> Option<SqlParam> {
    if name == "uri"@ {
        Some(SqlParam::Text(uri))
    } else if name == "authorDid"@ {
        Some(SqlParam::Text(author_did))
    } else if name == "status"@ {
        Some(SqlParam::Text(status))
    } else if name == "createdAt"@ {
        Some(SqlParam::Time(created_at))
    } else if name == "indexedAt"@ {
        Some(SqlParam::Time(indexed_at))
    } else {
        None
    }
}

/// Both status inserts open with `INSERT INTO status (` and the columns of
/// `status_insert_columns`, in that order; the jetstream upsert's update
/// sets `status = ?6` and `indexedAt = ?7`.
pub proof fn lemma_status_sql_columns()
    ensures
        SAVE_STATUS_OPTIMISTIC_SQL@.subrange(0, 64) == "INSERT INTO status ("@ + comma_list(status_insert_columns()),
        SAVE_STATUS_FROM_JETSTREAM_SQL@.subrange(0, 64) == "INSERT INTO status ("@ + comma_list(status_insert_columns()),
        SAVE_STATUS_FROM_JETSTREAM_SQL@.subrange(265, 276) == assignment("status"@, 6),
        SAVE_STATUS_FROM_JETSTREAM_SQL@.subrange(302, 316) == assignment("indexedAt"@, 7),
{
    reveal_strlit("INSERT INTO status (uri, authorDid, status, createdAt, indexedAt, seenOnJetstream, createdViaThisApp) VALUES (?1, ?2, ?3, ?4, ?5, FALSE, TRUE)
                      ON CONFLICT (uri)
                      DO UPDATE
                      SET
                        createdViaThisApp = TRUE
                      RETURNING *
                      ");
    reveal_strlit("INSERT INTO status (uri, authorDid, status, createdAt, indexedAt, seenOnJetstream, createdViaThisApp) VALUES (?1, ?2, ?3, ?4, ?5, TRUE, FALSE)
                      ON CONFLICT (uri)
                      DO UPDATE
                      SET
                        status = ?6,
                        indexedAt = ?7,
                        seenOnJetstream = TRUE 
                      RETURNING *
                      ");
    reveal_strlit("INSERT INTO status (");
    reveal_strlit("uri");
    reveal_strlit("authorDid");
    reveal_strlit("status");
    reveal_strlit("createdAt");
    reveal_strlit("indexedAt");
    reveal_strlit(", ");
    reveal_strlit(" = ?");
    reveal_with_fuel(comma_list, 6);
    assert(SAVE_STATUS_OPTIMISTIC_SQL@.subrange(0, 64) =~= "INSERT INTO status ("@ + comma_list(status_insert_columns()));
    assert(SAVE_STATUS_FROM_JETSTREAM_SQL@.subrange(0, 64) =~= "INSERT INTO status ("@ + comma_list(status_insert_columns()));
    assert(SAVE_STATUS_FROM_JETSTREAM_SQL@.subrange(265, 276) =~= assignment("status"@, 6));
    assert(SAVE_STATUS_FROM_JETSTREAM_SQL@.subrange(302, 316) =~= assignment("indexedAt"@, 7));
}

/// A status's bound values, by column: the value bound at the position of
/// each column the status inserts name is the status's value for that
/// column; the jetstream upsert's update values `?6` and `?7` are the
/// status's values for `status` and `indexedAt`.
pub proof fn lemma_status_columns_by_name(
    uri: String,
    author_did: String,
    status: String,
    created_at: Instant,
    indexed_at: Instant,
)
    ensures
        status_columns_of(uri, author_did, status, created_at, indexed_at).len()
            == status_insert_columns().len(),
        forall|k: int|
            0 <= k < status_insert_columns().len() ==> Some(
                #[trigger] status_columns_of(uri, author_did, status, created_at, indexed_at)[k],
            ) == status_column_value(status_insert_columns()[k], uri, author_did, status, created_at, indexed_at),
        status_column_value("status"@, uri, author_did, status, created_at, indexed_at) == Some(SqlParam::Text(status)),
        status_column_value("indexedAt"@, uri, author_did, status, created_at, indexed_at) == Some(SqlParam::Time(indexed_at)),
{
    lemma_column_names();
    let cols = status_insert_columns();
    let vals = status_columns_of(uri, author_did, status, created_at, indexed_at);
    assert forall|k: int| 0 <= k < cols.len() implies Some(#[trigger] vals[k])
        == status_column_value(cols[k], uri, author_did, status, created_at, indexed_at) by {
    }
}

/// The columns that the listing inserts give values to, in parameter order.
pub open spec fn listing_insert_columns() -> Seq<Seq<char>> {
    seq![
        "uri"@, "authorDid"@, "title"@, "description"@, "role"@, "price"@, "barterFor"@,
        "latitude"@, "longitude"@, "altitude"@, "locationName"@, "imageCid"@, "createdAt"@,
        "indexedAt"@,
    ]
}

/// The columns that the jetstream upsert of a listing updates, in the order
/// of the parameters `?15` to `?25`.
pub open spec fn listing_update_columns() -> Seq<Seq<char>> {
    seq![
        "title"@, "description"@, "role"@, "price"@, "barterFor"@, "latitude"@, "longitude"@,
        "altitude"@, "locationName"@, "imageCid"@, "indexedAt"@,
    ]
}

/// Where each assignment of the listing upsert's update clause stands in
/// its text, in the order of `listing_update_columns`.
pub open spec fn listing_update_offsets() -> Seq<int> {
    seq![422, 459, 502, 538, 575, 616, 656, 697, 737, 781, 821]
}

/// The value that a listing gives its column `name`.
pub open spec fn listing_column_value(name: Seq<char>, l: Listing) -> Option<SqlParam> {
    if name == "uri"@ {
        Some(SqlParam::Text(l.uri))
    } else if name == "authorDid"@ {
        Some(SqlParam::Text(l.author_did))
    } else if name == "title"@ {
        Some(SqlParam::Text(l.title))
    } else if name == "description"@ {
        Some(SqlParam::MaybeText(l.description))
    } else if name == "role"@ {
        Some(SqlParam::Text(l.role))
    } else if name == "price"@ {
        Some(SqlParam::MaybeText(l.price))
    } else if name == "barterFor"@ {
        Some(SqlParam::MaybeText(l.barter_for))
    } else if name == "latitude"@ {
        Some(SqlParam::MaybeText(l.latitude))
    } else if name == "longitude"@ {
        Some(SqlParam::MaybeText(l.longitude))
    } else if name == "altitude"@ {
        Some(SqlParam::MaybeText(l.altitude))
    } else if name == "locationName"@ {
        Some(SqlParam::MaybeText(l.location_name))
    } else if name == "imageCid"@ {
        Some(SqlParam::MaybeText(l.image_cid))
    } else if name == "createdAt"@ {
        Some(SqlParam::Time(l.created_at))
    } else if name == "indexedAt"@ {
        Some(SqlParam::Time(l.indexed_at))
    } else {
        None
    }
}

/// Both listing inserts open with `INSERT INTO listings (` and the columns
/// of `listing_insert_columns`, in that order; the jetstream upsert's
/// update sets each column of `listing_update_columns` to `?15`, `?16`, ...
/// in turn.
pub proof fn lemma_listing_sql_columns()
    ensures
        SAVE_LISTING_OPTIMISTIC_SQL@.subrange(0, 157) == "INSERT INTO listings ("@ + comma_list(listing_insert_columns()),
        SAVE_LISTING_FROM_JETSTREAM_SQL@.subrange(0, 157) == "INSERT INTO listings ("@ + comma_list(listing_insert_columns()),
        forall|k: int| 0 <= k < listing_update_columns().len() ==> {
            let a = assignment(#[trigger] listing_update_columns()[k], (15 + k) as nat);
            SAVE_LISTING_FROM_JETSTREAM_SQL@.subrange(listing_update_offsets()[k], listing_update_offsets()[k] + a.len()) == a
        },
{
    reveal_strlit("INSERT INTO listings (uri, authorDid, title, description, role, price, barterFor, latitude, longitude, altitude, locationName, imageCid, createdAt, indexedAt, seenOnJetstream, createdViaThisApp) 
                      VALUES (?1, ?2, ?3, ?4, ?5, ?6, ?7, ?8, ?9, ?10, ?11, ?12, ?13, ?14, FALSE, TRUE)
                      ON CONFLICT (uri)
                      DO UPDATE
                      SET
                        createdViaThisApp = TRUE
                      RETURNING *
                      ");
    reveal_strlit("INSERT INTO listings (uri, authorDid, title, description, role, price, barterFor, latitude, longitude, altitude, locationName, imageCid, createdAt, indexedAt, seenOnJetstream, createdViaThisApp) 
                      VALUES (?1, ?2, ?3, ?4, ?5, ?6, ?7, ?8, ?9, ?10, ?11, ?12, ?13, ?14, TRUE, FALSE)
                      ON CONFLICT (uri)
                      DO UPDATE
                      SET
                        title = ?15,
                        description = ?16,
                        role = ?17,
                        price = ?18,
                        barterFor = ?19,
                        latitude = ?20,
                        longitude = ?21,
                        altitude = ?22,
                        locationName = ?23,
                        imageCid = ?24,
                        indexedAt = ?25,
                        seenOnJetstream = TRUE 
                      RETURNING *
                      ");
    reveal_strlit("INSERT INTO listings (");
    reveal_strlit(", ");
    reveal_strlit(" = ?");
    reveal_strlit("uri");
    reveal_strlit("authorDid");
    reveal_strlit("title");
    reveal_strlit("description");
    reveal_strlit("role");
    reveal_strlit("price");
    reveal_strlit("barterFor");
    reveal_strlit("latitude");
    reveal_strlit("longitude");
    reveal_strlit("altitude");
    reveal_strlit("locationName");
    reveal_strlit("imageCid");
    reveal_strlit("createdAt");
    reveal_strlit("indexedAt");
    reveal_with_fuel(comma_list, 15);
    reveal_with_fuel(decimal, 2);
    assert(SAVE_LISTING_OPTIMISTIC_SQL@.subrange(0, 157) =~= "INSERT INTO listings ("@ + comma_list(listing_insert_columns()));
    assert(SAVE_LISTING_FROM_JETSTREAM_SQL@.subrange(0, 157) =~= "INSERT INTO listings ("@ + comma_list(listing_insert_columns()));
    assert(SAVE_LISTING_FROM_JETSTREAM_SQL@.subrange(422, 433) =~= assignment("title"@, 15));
    assert(SAVE_LISTING_FROM_JETSTREAM_SQL@.subrange(459, 476) =~= assignment("description"@, 16));
    assert(SAVE_LISTING_FROM_JETSTREAM_SQL@.subrange(502, 512) =~= assignment("role"@, 17));
    assert(SAVE_LISTING_FROM_JETSTREAM_SQL@.subrange(538, 549) =~= assignment("price"@, 18));
    assert(SAVE_LISTING_FROM_JETSTREAM_SQL@.subrange(575, 590) =~= assignment("barterFor"@, 19));
    assert(SAVE_LISTING_FROM_JETSTREAM_SQL@.subrange(616, 630) =~= assignment("latitude"@, 20));
    assert(SAVE_LISTING_FROM_JETSTREAM_SQL@.subrange(656, 671) =~= assignment("longitude"@, 21));
    assert(SAVE_LISTING_FROM_JETSTREAM_SQL@.subrange(697, 711) =~= assignment("altitude"@, 22));
    assert(SAVE_LISTING_FROM_JETSTREAM_SQL@.subrange(737, 755) =~= assignment("locationName"@, 23));
    assert(SAVE_LISTING_FROM_JETSTREAM_SQL@.subrange(781, 795) =~= assignment("imageCid"@, 24));
    assert(SAVE_LISTING_FROM_JETSTREAM_SQL@.subrange(821, 836) =~= assignment("indexedAt"@, 25));
    assert forall|k: int| 0 <= k < listing_update_columns().len() implies {
        let a = assignment(#[trigger] listing_update_columns()[k], (15 + k) as nat);
        SAVE_LISTING_FROM_JETSTREAM_SQL@.subrange(listing_update_offsets()[k], listing_update_offsets()[k] + a.len()) == a
    } by {
        if k == 0 {} else if k == 1 {} else if k == 2 {} else if k == 3 {} else if k == 4 {} else if k == 5 {} else if k == 6 {} else if k == 7 {} else if k == 8 {} else if k == 9 {}
    }
}

/// A listing's bound values, by column: the value bound at the position of
/// each column the listing inserts name is the listing's value for that
/// column, and so is the value bound to each column the jetstream upsert
/// updates.
pub proof fn lemma_listing_columns_by_name(l: Listing)
    ensures
        listing_columns_of(l).len() == listing_insert_columns().len(),
        forall|k: int|
            0 <= k < listing_insert_columns().len() ==> Some(#[trigger] listing_columns_of(l)[k])
                == listing_column_value(listing_insert_columns()[k], l),
        listing_updates_of(l).len() == listing_update_columns().len(),
        forall|k: int|
            0 <= k < listing_update_columns().len() ==> Some(#[trigger] listing_updates_of(l)[k])
                == listing_column_value(listing_update_columns()[k], l),
{
    lemma_column_names();
    let cols = listing_insert_columns();
    let ucols = listing_update_columns();
    assert forall|k: int| 0 <= k < cols.len() implies Some(#[trigger] listing_columns_of(l)[k])
        == listing_column_value(cols[k], l) by {
    }
    assert forall|k: int| 0 <= k < ucols.len() implies Some(#[trigger] listing_updates_of(l)[k])
        == listing_column_value(ucols[k], l) by {
    }
}

/// The lengths and first letters of the column names, which tell them apart.
proof fn lemma_column_names()
    ensures
        "uri"@.len() == 3 && "uri"@[0] == 'u',
        "authorDid"@.len() == 9 && "authorDid"@[0] == 'a',
        "title"@.len() == 5 && "title"@[0] == 't',
        "description"@.len() == 11 && "description"@[0] == 'd',
        "role"@.len() == 4 && "role"@[0] == 'r',
        "price"@.len() == 5 && "price"@[0] == 'p',
        "barterFor"@.len() == 9 && "barterFor"@[0] == 'b',
        "latitude"@.len() == 8 && "latitude"@[0] == 'l',
        "longitude"@.len() == 9 && "longitude"@[0] == 'l',
        "altitude"@.len() == 8 && "altitude"@[0] == 'a',
        "locationName"@.len() == 12 && "locationName"@[0] == 'l',
        "imageCid"@.len() == 8 && "imageCid"@[0] == 'i',
        "createdAt"@.len() == 9 && "createdAt"@[0] == 'c',
        "indexedAt"@.len() == 9 && "indexedAt"@[0] == 'i',
        "status"@.len() == 6 && "status"@[0] == 's',
{
    reveal_strlit("uri");
    reveal_strlit("authorDid");
    reveal_strlit("title");
    reveal_strlit("description");
    reveal_strlit("role");
    reveal_strlit("price");
    reveal_strlit("barterFor");
    reveal_strlit("latitude");
    reveal_strlit("longitude");
    reveal_strlit("altitude");
    reveal_strlit("locationName");
    reveal_strlit("imageCid");
    reveal_strlit("createdAt");
    reveal_strlit("indexedAt");
    reveal_strlit("status");
}

} // verus!
