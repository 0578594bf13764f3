//! The license check: a fixed answer, kept apart so that a real check can take
//! its place.

use vstd::prelude::*;
use crate::failure::OperationFailure;

verus! {

/// The state of the license.
#[derive(Clone, Copy, Debug, PartialEq, Eq, Structural)]
pub struct LicenseStatus {
    /// Whether the license is valid.
    pub valid: bool,
    /// The days left until it runs out.
    pub days_remaining: u32,
}

/// The status that every check reports: valid, with ninety days left.
pub open spec fn granted() -> LicenseStatus {
    LicenseStatus { valid: true, days_remaining: 90 }
}

/// Checks the license. The check looks at nothing and keeps nothing: it
/// succeeds on every call, with the same status.
pub fn check_license() -> (result: Result<LicenseStatus, OperationFailure>)
    ensures
        result == Ok::<LicenseStatus, OperationFailure>(granted()),
{
    Ok(LicenseStatus { valid: true, days_remaining: 90 })
}

} // verus!
