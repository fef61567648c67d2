//! A minimal deterministic state-transition machine: a ledger of accounts
//! whose state evolves only through ordered, explicitly-dispatched calls
//! grouped into numbered blocks.

pub mod balances;
pub mod errors;
pub mod proof_of_existence;
pub mod runtime;
pub mod store;
pub mod support;
pub mod system;
