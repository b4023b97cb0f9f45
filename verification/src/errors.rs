//! Construction-time defects of the chain-specification builder.

use vstd::prelude::*;

verus! {

/// A fatal defect found while assembling a chain specification.
///
/// Every input of the builder is a build-time literal, so each variant marks a
/// fixture defect rather than a runtime condition; construction aborts at the
/// first one.
#[derive(Clone, Copy, Debug, PartialEq, Eq, Structural)]
pub enum BuildError {
    /// An account literal is not a hex string of exactly forty hex digits.
    MalformedAddress,
    /// The protocol-properties blob is not a valid JSON object.
    MalformedProtocolProperties,
}

impl BuildError {
    /// A short description of the defect, for diagnostics.
    pub fn message(&self) -> (r: &'static str)
        ensures
            *self is MalformedAddress ==> r@ == "malformed account address literal"@,
            *self is MalformedProtocolProperties ==> r@ == "malformed protocol properties blob"@,
    {
        match self {
            BuildError::MalformedAddress => "malformed account address literal",
            BuildError::MalformedProtocolProperties => "malformed protocol properties blob",
        }
    }
}

} // verus!
