//! The data types a block producer hands to the runtime, and the record the
//! runtime hands back for every contained extrinsic failure.

use vstd::prelude::*;

use crate::balances::BalancesCall;
use crate::errors::ErrorKind;
use crate::proof_of_existence::POECall;

verus! {

/// The one top-level tagged union of every dispatchable call: one variant
/// per module, each wrapping that module's own call union.
pub enum RuntimeCall {
    /// A call into the balances module.
    Balances(BalancesCall),
    /// A call into the proof-of-existence module.
    ProofOfExistence(POECall),
}

/// An externally-submitted call request bound to a caller identity.
pub struct Extrinsic {
    /// The account on whose behalf the call runs; its nonce is advanced once
    /// per extrinsic, whatever the call's outcome.
    pub caller: String,
    /// The call to dispatch.
    pub call: RuntimeCall,
}

/// A block's header: only its declared number.
pub struct Header {
    /// Must equal the runtime's height after the pre-execution increment,
    /// else the whole block is rejected.
    pub block_number: u32,
}

/// A header together with an ordered sequence of extrinsics. Order is
/// significant: later extrinsics observe earlier extrinsics' effects.
pub struct Block {
    /// The block's header.
    pub header: Header,
    /// The extrinsics to apply, in order.
    pub extrinsics: Vec<Extrinsic>,
}

/// The structured record of one contained extrinsic failure, emitted to the
/// reporting collaborator instead of failing the block.
#[derive(Clone, Copy, Debug, PartialEq, Eq, Structural)]
pub struct ExtrinsicFailure {
    /// The number of the block the extrinsic stood in.
    pub block_number: u32,
    /// The extrinsic's index within that block.
    pub extrinsic_index: usize,
    /// The kind of failure the dispatched call returned.
    pub error: ErrorKind,
}

} // verus!
