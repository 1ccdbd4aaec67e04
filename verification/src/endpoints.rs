//! The request targets of the ticketing backend, computed from its
//! base URL, and the acceptance rule for its API-key check.
use vstd::prelude::*;
use crate::text::{dec_str, u32_to_dec};

verus! {

/// The account endpoint used to validate the configured API key.
pub fn account_url(base_url: &str) -> (r: String)
    ensures
        r@ == base_url@ + "/my/account.json"@,
{
    let mut m = base_url.to_owned();
    m.append("/my/account.json");
    m
}

/// The query for all open issues.
pub fn open_issues_url(base_url: &str) -> (r: String)
    ensures
        r@ == base_url@ + "/issues.json?status_id=open"@,
{
    let mut m = base_url.to_owned();
    m.append("/issues.json?status_id=open");
    m
}

/// The query for one issue by id.
pub fn issue_url(base_url: &str, issue_id: u32) -> (r: String)
    ensures
        r@ == base_url@ + "/issue.json?issue_id="@ + dec_str(issue_id as nat),
{
    let mut m = base_url.to_owned();
    m.append("/issue.json?issue_id=");
    let id_str = u32_to_dec(issue_id);
    m.append(id_str.as_str());
    m
}

/// Says whether the API-key check passed: only an OK status keeps the
/// configured key; any other answer drops to an unauthenticated
/// client.
pub fn api_key_accepted(status_code: u16) -> (r: bool)
    ensures
        r == (status_code == 200),
{
    status_code == 200
}

} // verus!
