use vstd::prelude::*;
use crate::error::BridgeError;
use crate::escrow::{EscrowLedger, EscrowView};
use crate::identity::Identity;
use crate::proof_gate::{ProofGate, Transition};
use crate::state_root::{RootView, StateRootLedger};
use crate::uint::Uint512;

verus! {

/// An initialized bridge as values.
pub struct ActiveView {
    pub ledger: RootView,
    pub sequencer: Seq<u8>,
    pub escrow: EscrowView,
}

impl ActiveView {
    /// The sequence fits its counter, the escrow balances, and the sequencer
    /// is a 32-byte account hash.
    pub open spec fn consistent(self) -> bool {
        &&& self.ledger.consistent()
        &&& self.escrow.consistent()
        &&& self.sequencer.len() == 32
    }
}

/// A bridge as values: `None` before initialization.
pub type BridgeView = Option<ActiveView>;

/// An initialized bridge is consistent; an uninitialized one holds nothing.
pub open spec fn view_consistent(m: BridgeView) -> bool {
    match m {
        Some(a) => a.consistent(),
        None => true,
    }
}

/// `init`: stores the root and the sequencer and zeroes the escrow, once.
pub open spec fn init_step(m: BridgeView, initial_root: Uint512, sequencer: Seq<u8>) -> (
    BridgeView,
    Result<(), BridgeError>,
) {
    match m {
        Some(_) => (m, Err(BridgeError::AlreadyInitialized)),
        None => (
            Some(
                ActiveView {
                    ledger: RootView { root: initial_root, sequence: 0 },
                    sequencer,
                    escrow: EscrowView::empty(),
                },
            ),
            Ok(()),
        ),
    }
}

/// `submit_batch`: the caller must be the sequencer, then the proof must be
/// accepted, then the root is committed.
pub open spec fn submit_batch_step(
    m: BridgeView,
    caller: Seq<u8>,
    new_root: Uint512,
    proof_accepted: bool,
) -> (BridgeView, Result<(), BridgeError>) {
    match m {
        None => (m, Err(BridgeError::NotInitialized)),
        Some(a) => if caller != a.sequencer {
            (m, Err(BridgeError::Unauthorized))
        } else if !proof_accepted {
            (m, Err(BridgeError::InvalidProof))
        } else {
            let (ledger, r) = a.ledger.commit_step(new_root);
            match r {
                Ok(_) => (Some(ActiveView { ledger, ..a }), Ok(())),
                Err(e) => (m, Err(e)),
            }
        },
    }
}

/// `deposit`: the escrow is credited with `amount`.
pub open spec fn deposit_step(m: BridgeView, amount: nat) -> (BridgeView, Result<(), BridgeError>) {
    match m {
        None => (m, Err(BridgeError::NotInitialized)),
        Some(a) => {
            let (escrow, r) = a.escrow.credit_step(amount);
            (Some(ActiveView { escrow, ..a }), r)
        },
    }
}

/// `withdraw`: the proof must be accepted, then the escrow is debited by
/// `amount`.
pub open spec fn withdraw_step(m: BridgeView, amount: nat, proof_accepted: bool) -> (
    BridgeView,
    Result<(), BridgeError>,
) {
    match m {
        None => (m, Err(BridgeError::NotInitialized)),
        Some(a) => if !proof_accepted {
            (m, Err(BridgeError::InvalidProof))
        } else {
            let (escrow, r) = a.escrow.debit_step(amount);
            (Some(ActiveView { escrow, ..a }), r)
        },
    }
}

/// The state of an initialized bridge.
#[derive(Clone, Copy, Debug, PartialEq, Eq)]
pub struct BridgeState {
    ledger: StateRootLedger,
    sequencer: Identity,
    escrow: EscrowLedger,
}

impl View for BridgeState {
    type V = ActiveView;

    closed spec fn view(&self) -> ActiveView {
        ActiveView { ledger: self.ledger@, sequencer: self.sequencer.bytes@, escrow: self.escrow@ }
    }
}

impl BridgeState {
    /// Whether `caller` is the designated sequencer, by exact equality.
    pub fn is_authorized_sequencer(&self, caller: &Identity) -> (r: bool)
        ensures
            r <==> caller.bytes@ == self@.sequencer,
    {
        caller.same_as(&self.sequencer)
    }
}

/// What an observer may read of an initialized bridge.
#[derive(Clone, Copy, Debug, PartialEq, Eq)]
pub struct BridgeSnapshot {
    pub root: Uint512,
    pub batch_sequence: u64,
    pub escrow_balance: Uint512,
    pub total_deposited: Uint512,
    pub total_withdrawn: Uint512,
}

/// The bridge's state machine: uninitialized until `init`, then active for
/// good. Each operation either completes or fails and changes nothing.
#[derive(Clone, Copy, Debug, PartialEq, Eq)]
pub struct Bridge {
    active: Option<BridgeState>,
}

impl View for Bridge {
    type V = BridgeView;

    closed spec fn view(&self) -> BridgeView {
        match self.active {
            Some(s) => Some(s@),
            None => None,
        }
    }
}

impl Bridge {
    /// The bridge is consistent.
    pub open spec fn wf(&self) -> bool {
        view_consistent(self@)
    }

    /// A bridge that is not yet initialized.
    pub fn new() -> (r: Bridge)
        ensures
            r@ == None::<ActiveView>,
            r.wf(),
    {
        Bridge { active: None }
    }

    /// The initialized bridge that `snapshot` describes, with `sequencer` as
    /// its sequencer, or `None` where the escrow balance is not the deposit
    /// total less the withdrawal total.
    pub fn restore(snapshot: BridgeSnapshot, sequencer: Identity) -> (r: Option<Bridge>)
        ensures
            r is Some <==> snapshot.total_withdrawn.value() <= snapshot.total_deposited.value()
                && snapshot.escrow_balance.value() == snapshot.total_deposited.value()
                - snapshot.total_withdrawn.value(),
            r matches Some(b) ==> b.wf() && b@ == Some(
                ActiveView {
                    ledger: RootView {
                        root: snapshot.root,
                        sequence: snapshot.batch_sequence as nat,
                    },
                    sequencer: sequencer.bytes@,
                    escrow: EscrowView {
                        balance: snapshot.escrow_balance.value(),
                        deposited: snapshot.total_deposited.value(),
                        withdrawn: snapshot.total_withdrawn.value(),
                    },
                },
            ),
    {
        match EscrowLedger::restore(
            snapshot.escrow_balance,
            snapshot.total_deposited,
            snapshot.total_withdrawn,
        ) {
            None => None,
            Some(escrow) => {
                proof {
                    vstd::array::array_len_matches_n(&sequencer.bytes);
                }
                let state = BridgeState {
                    ledger: StateRootLedger::restore(snapshot.root, snapshot.batch_sequence),
                    sequencer,
                    escrow,
                };
                Some(Bridge { active: Some(state) })
            },
        }
    }

    /// The sequencer of an initialized bridge.
    pub fn sequencer(&self) -> (r: Option<Identity>)
        ensures
            r is None <==> self@ is None,
            r matches Some(id) ==> id.bytes@ == self@->Some_0.sequencer,
    {
        match &self.active {
            None => None,
            Some(state) => Some(state.sequencer),
        }
    }

    /// Initializes the bridge with its first state root and its sequencer.
    pub fn init(&mut self, initial_root: Uint512, sequencer: Identity) -> (r: Result<
        (),
        BridgeError,
    >)
        requires
            old(self).wf(),
        ensures
            (final(self)@, r) == init_step(old(self)@, initial_root, sequencer.bytes@),
            final(self).wf(),
    {
        if self.active.is_some() {
            return Err(BridgeError::AlreadyInitialized);
        }
        let state = BridgeState {
            ledger: StateRootLedger::new(initial_root),
            sequencer,
            escrow: EscrowLedger::new(),
        };
        proof {
            vstd::array::array_len_matches_n(&sequencer.bytes);
        }
        self.active = Some(state);
        Ok(())
    }

    /// Replaces the state root with `new_root` on behalf of `caller`, backed
    /// by `proof` as judged by `gate`.
    pub fn submit_batch<G: ProofGate>(
        &mut self,
        gate: &G,
        caller: &Identity,
        new_root: Uint512,
        proof: &Vec<u8>,
    ) -> (r: Result<(), BridgeError>)
        requires
            old(self).wf(),
        ensures
            (final(self)@, r) == submit_batch_step(
                old(self)@,
                caller.bytes@,
                new_root,
                gate.admits(Transition::Batch { new_root }, proof@),
            ),
            final(self).wf(),
    {
        match self.active {
            None => Err(BridgeError::NotInitialized),
            Some(state) => {
                if !state.is_authorized_sequencer(caller) {
                    return Err(BridgeError::Unauthorized);
                }
                if !gate.accepts(&Transition::Batch { new_root }, proof) {
                    return Err(BridgeError::InvalidProof);
                }
                let mut next = state;
                match next.ledger.commit(new_root) {
                    Ok(_) => {
                        self.active = Some(next);
                        Ok(())
                    },
                    Err(e) => Err(e),
                }
            },
        }
    }

    /// Records a deposit of `amount` into custody. Crediting the depositor on
    /// the off-chain ledger is left to the sequencer, in a later batch.
    pub fn deposit(&mut self, amount: Uint512) -> (r: Result<(), BridgeError>)
        requires
            old(self).wf(),
        ensures
            (final(self)@, r) == deposit_step(old(self)@, amount.value()),
            final(self).wf(),
    {
        match self.active {
            None => Err(BridgeError::NotInitialized),
            Some(state) => {
                let mut next = state;
                let r = next.escrow.credit(amount);
                if r.is_ok() {
                    self.active = Some(next);
                }
                r
            },
        }
    }

    /// Releases `amount` from custody, backed by `proof` as judged by `gate`.
    pub fn withdraw<G: ProofGate>(&mut self, gate: &G, amount: Uint512, proof: &Vec<u8>) -> (r:
        Result<(), BridgeError>)
        requires
            old(self).wf(),
        ensures
            (final(self)@, r) == withdraw_step(
                old(self)@,
                amount.value(),
                gate.admits(Transition::Withdrawal { amount }, proof@),
            ),
            final(self).wf(),
    {
        match self.active {
            None => Err(BridgeError::NotInitialized),
            Some(state) => {
                if !gate.accepts(&Transition::Withdrawal { amount }, proof) {
                    return Err(BridgeError::InvalidProof);
                }
                let mut next = state;
                let r = next.escrow.debit(amount);
                if r.is_ok() {
                    self.active = Some(next);
                }
                r
            },
        }
    }

    /// The root, batch sequence, escrow balance and running totals, or `None`
    /// before initialization.
    pub fn get_state(&self) -> (r: Option<BridgeSnapshot>)
        ensures
            r is None <==> self@ is None,
            r matches Some(s) ==> ({
                let a = self@->Some_0;
                &&& s.root == a.ledger.root
                &&& s.batch_sequence as nat == a.ledger.sequence
                &&& s.escrow_balance.value() == a.escrow.balance
                &&& s.total_deposited.value() == a.escrow.deposited
                &&& s.total_withdrawn.value() == a.escrow.withdrawn
            }),
    {
        match &self.active {
            None => None,
            Some(state) => Some(
                BridgeSnapshot {
                    root: state.ledger.current_root(),
                    batch_sequence: state.ledger.sequence(),
                    escrow_balance: state.escrow.balance(),
                    total_deposited: state.escrow.total_deposited(),
                    total_withdrawn: state.escrow.total_withdrawn(),
                },
            ),
        }
    }
}

/// Aborts the call in flight: the bridge returns to `snapshot`, taken before
/// the call, and the code under which the host reverts the call is returned.
/// A custody transfer that fails after a staged withdrawal ends here.
pub fn panic(bridge: &mut Bridge, snapshot: Bridge, error: BridgeError) -> (r: u16)
    ensures
        *final(bridge) == snapshot,
        r == error.spec_code(),
{
    *bridge = snapshot;
    error.code()
}

/// The version of the bridge's entry-point interface.
pub fn get_version() -> (r: u32)
    ensures
        r == 1,
{
    1
}

} // verus!
