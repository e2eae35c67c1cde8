use vstd::prelude::*;
use crate::bridge::{
    deposit_step, init_step, submit_batch_step, withdraw_step, BridgeView,
};
use crate::error::BridgeError;
use crate::proof_gate::{NonEmptyProof, ProofGate, Transition};
use crate::uint::Uint512;

verus! {

/// An operation on the bridge, with the proof gate's decision where a proof is checked.
pub enum Op {
    Init { root: Uint512, sequencer: Seq<u8> },
    SubmitBatch { caller: Seq<u8>, new_root: Uint512, proof_accepted: bool },
    Deposit { amount: nat },
    Withdraw { amount: nat, proof_accepted: bool },
}

/// The effect and the outcome of one call.
pub open spec fn step(m: BridgeView, op: Op) -> (BridgeView, Result<(), BridgeError>) {
    match op {
        Op::Init { root, sequencer } => init_step(m, root, sequencer),
        Op::SubmitBatch { caller, new_root, proof_accepted } => submit_batch_step(
            m,
            caller,
            new_root,
            proof_accepted,
        ),
        Op::Deposit { amount } => deposit_step(m, amount),
        Op::Withdraw { amount, proof_accepted } => withdraw_step(m, amount, proof_accepted),
    }
}

/// The bridge after `ops`, starting uninitialized.
pub open spec fn run(ops: Seq<Op>) -> BridgeView
    decreases ops.len(),
{
    if ops.len() == 0 {
        None
    } else {
        step(run(ops.drop_last()), ops.last()).0
    }
}

/// How many of `ops` are batch submissions that succeeded.
pub open spec fn accepted_batches(ops: Seq<Op>) -> nat
    decreases ops.len(),
{
    if ops.len() == 0 {
        0
    } else {
        let prior = accepted_batches(ops.drop_last());
        if ops.last() is SubmitBatch && step(run(ops.drop_last()), ops.last()).1 is Ok {
            prior + 1
        } else {
            prior
        }
    }
}

/// In every state reached from an uninitialized bridge, the escrow balance
/// is the total deposited less the total withdrawn.
pub proof fn law_escrow_balance(ops: Seq<Op>)
    ensures
        run(ops) matches Some(a) ==> {
            &&& a.escrow.consistent()
            &&& a.escrow.withdrawn <= a.escrow.deposited
            &&& a.escrow.balance == a.escrow.deposited - a.escrow.withdrawn
        },
    decreases ops.len(),
{
    if ops.len() > 0 {
        law_escrow_balance(ops.drop_last());
        if run(ops.drop_last()) is None {
            Uint512::lemma_zero_below_bound();
        }
    }
}

/// In every state reached from an uninitialized bridge, the batch sequence
/// is the number of batch submissions that succeeded since initialization.
pub proof fn law_sequence_counts_batches(ops: Seq<Op>)
    ensures
        run(ops) is None ==> accepted_batches(ops) == 0,
        run(ops) matches Some(a) ==> a.ledger.sequence == accepted_batches(ops),
    decreases ops.len(),
{
    if ops.len() > 0 {
        law_sequence_counts_batches(ops.drop_last());
    }
}

/// A second `init` fails with `AlreadyInitialized` and changes nothing.
pub proof fn law_init_once(m: BridgeView, root: Uint512, sequencer: Seq<u8>)
    requires
        m is Some,
    ensures
        init_step(m, root, sequencer) == (m, Err::<(), BridgeError>(BridgeError::AlreadyInitialized)),
{
}

/// A batch from anyone but the sequencer fails with `Unauthorized`, whatever
/// the proof, and leaves the root and the sequence as they were.
pub proof fn law_only_sequencer_submits(
    m: BridgeView,
    caller: Seq<u8>,
    new_root: Uint512,
    proof_accepted: bool,
)
    requires
        m matches Some(a) && caller != a.sequencer,
    ensures
        submit_batch_step(m, caller, new_root, proof_accepted) == (m, Err::<(), BridgeError>(
            BridgeError::Unauthorized,
        )),
{
}

/// Under the placeholder gate, the sequencer's batch with an empty proof
/// fails with `InvalidProof` and changes nothing; with a non-empty proof it
/// commits the root, unless the counter is exhausted.
pub proof fn law_placeholder_proof_gate(
    m: BridgeView,
    caller: Seq<u8>,
    new_root: Uint512,
    proof: Seq<u8>,
)
    requires
        m matches Some(a) && caller == a.sequencer,
    ensures
        ({
            let accepted = NonEmptyProof.admits(Transition::Batch { new_root }, proof);
            let (next, r) = submit_batch_step(m, caller, new_root, accepted);
            &&& proof.len() == 0 ==> next == m && r == Err::<(), BridgeError>(
                BridgeError::InvalidProof,
            )
            &&& proof.len() > 0 && m->Some_0.ledger.sequence < u64::MAX ==> {
                &&& r is Ok
                &&& next matches Some(b) && b.ledger.root == new_root && b.ledger.sequence
                    == m->Some_0.ledger.sequence + 1
            }
        }),
{
}

/// A withdrawal above the escrow balance changes nothing, and fails with
/// `InsufficientEscrow` once its proof is accepted.
pub proof fn law_no_overdraft(m: BridgeView, amount: nat, proof_accepted: bool)
    requires
        m matches Some(a) && amount > a.escrow.balance,
    ensures
        withdraw_step(m, amount, proof_accepted).0 == m,
        withdraw_step(m, amount, proof_accepted).1 is Err,
        proof_accepted ==> withdraw_step(m, amount, proof_accepted).1 == Err::<(), BridgeError>(
            BridgeError::InsufficientEscrow,
        ),
{
}

} // verus!
