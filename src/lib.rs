//! Settlement core of a rollup bridge: a committed state root advanced in
//! sequenced batches by one sequencer behind a proof gate, and an escrow
//! ledger that backs deposits and withdrawals.

pub mod error;
pub mod identity;
pub mod proof_gate;
pub mod uint;
pub mod escrow;
pub mod state_root;
pub mod bridge;
pub mod laws;
