//! Error taxonomy for device lookup, catalog fetch and script execution.

use vstd::prelude::*;

verus! {

/// Why an operation over devices, profiles or the catalog failed.
///
/// `NotFound`: no device with the given bus-id, no profile with the given
/// codename, or the catalog could not be fetched and no cache exists.
/// `InvalidData`: the enumeration backend returned nothing.
/// `ScriptFailure`: a privileged script exited non-zero.
/// `ParseFailure`: the catalog body is not valid JSON.
#[derive(Clone, Copy, Debug, PartialEq, Eq, Structural)]
pub enum CfhdbError {
    NotFound,
    InvalidData,
    ScriptFailure,
    ParseFailure,
}

impl CfhdbError {
    /// A short human-readable label for the error.
    pub fn message(&self) -> (r: &'static str)
        ensures
            *self == CfhdbError::NotFound ==> r@ == "not found"@,
            *self == CfhdbError::InvalidData ==> r@ == "invalid data"@,
            *self == CfhdbError::ScriptFailure ==> r@ == "script failed"@,
            *self == CfhdbError::ParseFailure ==> r@ == "parse failure"@,
    {
        match self {
            CfhdbError::NotFound => "not found",
            CfhdbError::InvalidData => "invalid data",
            CfhdbError::ScriptFailure => "script failed",
            CfhdbError::ParseFailure => "parse failure",
        }
    }
}

} // verus!
