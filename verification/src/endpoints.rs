//! URLs of the remote system's endpoints.

use vstd::prelude::*;
use vstd::string::*;

use crate::text::dec_spec;
use crate::text::dec_u64;

verus! {

/// The remote application's base URL, as a character sequence.
pub open spec fn base_url_spec() -> Seq<char> {
    "https://www.servware.org"@
}

/// Builds a full URL from a path under the remote application's base.
pub fn url(path: &str) -> (r: String)
    ensures
        r@ == base_url_spec() + path@,
{
    let mut s = String::from_str("https://www.servware.org");
    s.append(path);
    s
}

/// The login form's POST target.
pub fn login_url() -> (r: String)
    ensures
        r@ == base_url_spec() + "/security/login"@,
{
    url("/security/login")
}

/// The paginated query feed.
pub fn list_url() -> (r: String)
    ensures
        r@ == base_url_spec() + "/app/assistancerequests/list"@,
{
    url("/app/assistancerequests/list")
}

/// A record's canonical URL: its detail page, and the target of the full
/// form POST that updates it.
pub fn request_url(id: u64) -> (r: String)
    ensures
        r@ == base_url_spec() + "/app/assistancerequests/"@ + dec_spec(id as nat),
{
    let mut s = url("/app/assistancerequests/");
    s.append(dec_u64(id).as_str());
    s
}

/// The creation endpoint for a record's new assistance line item.
pub fn assistance_item_url(id: u64) -> (r: String)
    ensures
        r@ == base_url_spec() + "/app/assistancerequests/"@ + dec_spec(id as nat)
            + "/assistanceitems/new"@,
{
    let mut s = request_url(id);
    s.append("/assistanceitems/new");
    s
}

/// The keep-alive endpoint.
pub fn extend_session_url() -> (r: String)
    ensures
        r@ == base_url_spec() + "/security/extendSession"@,
{
    url("/security/extendSession")
}

} // verus!
