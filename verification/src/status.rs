//! Reading the status of a remote answer.

use vstd::prelude::*;

verus! {

/// Whether `status` lies in the success range, 200 to 299.
pub open spec fn in_success_range(status: u16) -> bool {
    200 <= status < 300
}

/// Asks `reqwest::StatusCode`, the status type of the `http` crate that
/// reqwest hands on, whether `status` is a success.
///
/// Trusted, not proved: `StatusCode::from_u16` accepts the codes from 100
/// to 999 and refuses all others, and `StatusCode::is_success` holds
/// exactly of the codes from 200 to 299.  A code that is refused counts as
/// no success, so the answer is that of the success range for every `u16`.
#[verifier::external_body]
fn status_code_is_success(status: u16) -> (success: bool)
    ensures
        success == in_success_range(status),
{
    match reqwest::StatusCode::from_u16(status) {
        Ok(code) => code.is_success(),
        Err(_) => false,
    }
}

/// Whether a remote call that was answered with `status` went through.
pub fn is_success(status: u16) -> (success: bool)
    ensures
        success == in_success_range(status),
{
    status_code_is_success(status)
}

} // verus!
