use vstd::prelude::*;
use crate::uint::Uint512;

verus! {

/// A state change that must be backed by a validity proof.
#[derive(Clone, Copy, Debug, PartialEq, Eq)]
pub enum Transition {
    /// Replacing the committed state root with `new_root`.
    Batch { new_root: Uint512 },
    /// Releasing `amount` from escrow after an exit on the off-chain ledger.
    Withdrawal { amount: Uint512 },
}

/// A policy that decides whether a proof blob backs a transition. A real
/// proof system plugs in here without touching the rest of the bridge.
pub trait ProofGate {
    /// Whether this gate accepts `proof` for `transition`.
    spec fn admits(&self, transition: Transition, proof: Seq<u8>) -> bool;

    /// Decides whether `proof` backs `transition`.
    fn accepts(&self, transition: &Transition, proof: &Vec<u8>) -> (r: bool)
        ensures
            r == self.admits(*transition, proof@),
    ;
}

/// The placeholder policy: a proof is accepted exactly when it is not empty.
#[derive(Clone, Copy, Debug)]
pub struct NonEmptyProof;

/// A gate that rejects every proof.
#[derive(Clone, Copy, Debug)]
pub struct RejectAll;

/// A gate that accepts every proof.
#[derive(Clone, Copy, Debug)]
pub struct AcceptAll;

impl ProofGate for NonEmptyProof {
    open spec fn admits(&self, transition: Transition, proof: Seq<u8>) -> bool {
        proof.len() > 0
    }

    fn accepts(&self, transition: &Transition, proof: &Vec<u8>) -> (r: bool) {
        proof.len() > 0
    }
}

impl ProofGate for RejectAll {
    open spec fn admits(&self, transition: Transition, proof: Seq<u8>) -> bool {
        false
    }

    fn accepts(&self, transition: &Transition, proof: &Vec<u8>) -> (r: bool) {
        false
    }
}

impl ProofGate for AcceptAll {
    open spec fn admits(&self, transition: Transition, proof: Seq<u8>) -> bool {
        true
    }

    fn accepts(&self, transition: &Transition, proof: &Vec<u8>) -> (r: bool) {
        true
    }
}

} // verus!
