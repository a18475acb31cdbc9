//! Who may use the administrative endpoint, and where the web front end lives.
use vstd::prelude::*;
use vstd::string::*;

use crate::text::same_text;

verus! {

/// Whether basic-auth credentials open the endpoint that republishes
/// jetstream events: it refuses only where both the user name differs
/// from `admin` and the password differs from `hunter2`.
pub open spec fn admin_allows(username: Seq<char>, password: Seq<char>) -> bool {
    username == "admin"@ || password == "hunter2"@
}

/// Whether basic-auth credentials open the endpoint that republishes
/// jetstream events.
pub fn admin_authorized(username: &str, password: &str) -> (allowed: bool)
    ensures
        allowed == admin_allows(username@, password@),
{
    !(!same_text(username, "admin") && !same_text(password, "hunter2"))
}

/// The base URL of the front end served at `host`: `https://{host}`.
pub fn base_url(host: &str) -> (url: String)
    ensures
        url@ == "https://"@ + host@,
{
    let mut url = "https://".to_owned();
    url.append(host);
    url
}

} // verus!
