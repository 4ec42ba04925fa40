//! Classification of HTTP status codes.

use vstd::prelude::*;

verus! {

/// A status code counts as successful when it lies in the range 200..=299.
pub open spec fn spec_is_success(status: u16) -> bool {
    200 <= status < 300
}

/// The status code with which the service says that a link does not exist.
pub open spec fn spec_not_found() -> u16 {
    404
}

/// Trusted: `reqwest::StatusCode::from_u16` followed by
/// `reqwest::StatusCode::is_success`. The first accepts exactly the codes
/// 100..=999, the second holds exactly of the codes 200..=299, so the answer
/// is `true` exactly for a code in 200..=299.
#[verifier::external_body]
pub(crate) fn success_class(status: u16) -> (ok: bool)
    ensures
        ok == spec_is_success(status),
{
    match reqwest::StatusCode::from_u16(status) {
        Ok(code) => code.is_success(),
        Err(_) => false,
    }
}

/// Trusted: `reqwest::StatusCode::as_u16` on the constant
/// `reqwest::StatusCode::NOT_FOUND`, which is the code 404.
#[verifier::external_body]
pub(crate) fn not_found_code() -> (code: u16)
    ensures
        code == spec_not_found(),
{
    reqwest::StatusCode::NOT_FOUND.as_u16()
}

/// Tells whether `status` is a successful (2xx) status code.
pub fn is_success(status: u16) -> (ok: bool)
    ensures
        ok == spec_is_success(status),
{
    success_class(status)
}

/// Tells whether `status` says that the resource asked for does not exist.
pub fn is_not_found(status: u16) -> (missing: bool)
    ensures
        missing == (status == spec_not_found()),
{
    status == not_found_code()
}

} // verus!
