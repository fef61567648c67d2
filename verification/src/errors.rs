//! The closed set of error kinds a call can fail with.

use vstd::prelude::*;

verus! {

/// Every way a dispatched call or a block can fail.
///
/// The module-level kinds (all but [`ErrorKind::BlockNumberMismatch`]) are
/// contained at the extrinsic level: they are reported, never propagated to
/// fail the enclosing block. `BlockNumberMismatch` is fatal at the block
/// level.
#[derive(Clone, Copy, Debug, PartialEq, Eq, Structural)]
pub enum ErrorKind {
    /// A transfer's source balance would go negative.
    InsufficientFunds,
    /// A transfer's destination balance would exceed the representable range.
    Overflow,
    /// A claim was created on an occupied claim key.
    ClaimAlreadyExists,
    /// A claim was revoked or looked up on a missing claim key.
    ClaimNotFound,
    /// A claim was revoked by an account that does not own it.
    NotClaimOwner,
    /// A block header's declared number does not equal the expected next
    /// height.
    BlockNumberMismatch,
}

} // verus!
