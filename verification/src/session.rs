//! Decisions of the session protocol.
//!
//! The transport itself (cookies, redirects, timeouts) lives outside the
//! library; these functions classify what came back, so that every HTTP
//! outcome maps to exactly one result.

use vstd::prelude::*;

use crate::errors::ApiError;
use crate::text::contains_sub;
use crate::text::has_substring;

verus! {

/// A 2xx status.
pub open spec fn is_success(status: u16) -> bool {
    200 <= status < 300
}

/// A 3xx status.
pub open spec fn is_redirect(status: u16) -> bool {
    300 <= status < 400
}

/// Why a login attempt failed.
#[derive(Debug, Clone, Copy, PartialEq, Eq, Structural)]
pub enum LoginError {
    /// The remote bounced the browser back to the login page: wrong
    /// credentials (a failed login redirects rather than erroring).
    BadCredentials,
    /// The login POST itself did not succeed.
    Transport { status: u16 },
}

/// What a login response means.
///
/// `landing_url` is the URL the client ended on after redirects; landing
/// back on the login path means the credentials were rejected, whatever
/// the status code says.
pub open spec fn spec_login_outcome(landing_url: Seq<char>, status: u16) -> Result<
    (),
    LoginError,
> {
    if has_substring(landing_url, "/security/login"@) {
        Err(LoginError::BadCredentials)
    } else if !is_success(status) {
        Err(LoginError::Transport { status })
    } else {
        Ok(())
    }
}

/// Classifies a login response; see `spec_login_outcome`.
pub fn login_outcome(landing_url: &str, status: u16) -> (r: Result<(), LoginError>)
    ensures
        r == spec_login_outcome(landing_url@, status),
{
    if contains_sub(landing_url, "/security/login") {
        Err(LoginError::BadCredentials)
    } else if !(200 <= status && status < 300) {
        Err(LoginError::Transport { status })
    } else {
        Ok(())
    }
}

/// Classifies the response to a mutation POST (update or append): the
/// remote answers such a form submission with a success or a redirect.
pub fn post_outcome(status: u16) -> (r: Result<(), ApiError>)
    ensures
        r == if is_success(status) || is_redirect(status) {
            Result::<(), ApiError>::Ok(())
        } else {
            Result::<(), ApiError>::Err(ApiError::Transport { status })
        },
{
    if (200 <= status && status < 300) || (300 <= status && status < 400) {
        Ok(())
    } else {
        Err(ApiError::Transport { status })
    }
}

/// Classifies the response to a plain read (the query feed, the keep-alive
/// call): only a success will do.
pub fn fetch_outcome(status: u16) -> (r: Result<(), ApiError>)
    ensures
        r == if is_success(status) {
            Result::<(), ApiError>::Ok(())
        } else {
            Result::<(), ApiError>::Err(ApiError::Transport { status })
        },
{
    if 200 <= status && status < 300 {
        Ok(())
    } else {
        Err(ApiError::Transport { status })
    }
}

/// Whether a login response body carries the remote's failure markers:
/// some deployments answer a bad login with an error page instead of a
/// redirect, so the login flow checks the landing page's text as well as
/// its URL.
pub fn login_body_indicates_failure(body: &str) -> (r: bool)
    ensures
        r == (has_substring(body@, "login_error"@) || has_substring(
            body@,
            "Invalid credentials"@,
        )),
{
    contains_sub(body, "login_error") || contains_sub(body, "Invalid credentials")
}

} // verus!
