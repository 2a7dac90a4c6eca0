//! Helpers of the backend API client: the endpoint URLs, the
//! percent-encoding of query values, and the document and template records
//! exchanged with the document API.

pub mod documents;
pub mod urlencoding;

pub use urlencoding::encode;

use vstd::prelude::*;
use crate::api::urlencoding::url_encoded;

verus! {

/// The base URL of the backend API.
pub const API_BASE: &'static str = "http://localhost:8000";

/// The URL of the context of a domain: `{API_BASE}/context/{domain_id}`.
pub fn context_url(domain_id: &str) -> (r: String)
    ensures
        r@ == API_BASE@ + "/context/"@ + domain_id@,
{
    let mut r = String::from_str(API_BASE);
    r.append("/context/");
    r.append(domain_id);
    r
}

/// The URL of the list of domains: `{API_BASE}/domains`.
pub fn domains_url() -> (r: String)
    ensures
        r@ == API_BASE@ + "/domains"@,
{
    let mut r = String::from_str(API_BASE);
    r.append("/domains");
    r
}

/// The URL of a search: `{API_BASE}/search?q=` and the percent-encoded query.
pub fn search_url(query: &str) -> (r: String)
    ensures
        r@ == API_BASE@ + "/search?q="@ + url_encoded(query@),
{
    let encoded = encode(query);
    let mut r = String::from_str(API_BASE);
    r.append("/search?q=");
    r.append(encoded.as_str());
    r
}

/// The URL of the recommended apps: `{API_BASE}/apps/recommended`.
pub fn recommended_apps_url() -> (r: String)
    ensures
        r@ == API_BASE@ + "/apps/recommended"@,
{
    let mut r = String::from_str(API_BASE);
    r.append("/apps/recommended");
    r
}

} // verus!
