//! The ways a tip jar request can fail.
use vstd::prelude::*;

verus! {

/// Why a request was refused. A refused request has no effect.
#[derive(Clone, Copy, PartialEq, Eq, Debug, Structural)]
pub enum CustomError {
    /// The acting identity is not the owner, or an asset record does not match.
    Unauthorized,
    /// Fee or balance arithmetic left the 64-bit range.
    CalculationOverflow,
    /// A withdrawal against a balance at or below the retention minimum.
    InsufficientBalance,
    /// A tip jar already exists at the derived address.
    AlreadyExists,
    /// No tip jar at the given address, or the address is not the derived one.
    NotFound,
    /// The name is longer than `MAX_NAME_LEN` bytes.
    NameTooLong,
    /// The description is longer than `MAX_DESCRIPTION_LEN` bytes.
    DescriptionTooLong,
}

} // verus!
