use vstd::prelude::*;
use crate::error::BridgeError;
use crate::uint::Uint512;

verus! {

/// The committed state root and the number of batches accepted so far.
pub struct RootView {
    pub root: Uint512,
    pub sequence: nat,
}

impl RootView {
    /// The sequence number fits its 64-bit counter.
    pub open spec fn consistent(self) -> bool {
        self.sequence <= u64::MAX
    }

    /// Committing `new_root`: the root is replaced and the sequence grows by
    /// one, unless the counter is at its largest value.
    pub open spec fn commit_step(self, new_root: Uint512) -> (RootView, Result<u64, BridgeError>) {
        if self.sequence >= u64::MAX {
            (self, Err(BridgeError::SequenceOverflow))
        } else {
            (
                RootView { root: new_root, sequence: self.sequence + 1 },
                Ok((self.sequence + 1) as u64),
            )
        }
    }
}

/// The live state root and its batch sequence number.
#[derive(Clone, Copy, Debug, PartialEq, Eq)]
pub struct StateRootLedger {
    root: Uint512,
    sequence: u64,
}

impl View for StateRootLedger {
    type V = RootView;

    closed spec fn view(&self) -> RootView {
        RootView { root: self.root, sequence: self.sequence as nat }
    }
}

impl StateRootLedger {
    /// A ledger holding `initial` at sequence zero.
    pub fn new(initial: Uint512) -> (r: StateRootLedger)
        ensures
            r@ == (RootView { root: initial, sequence: 0 }),
    {
        StateRootLedger { root: initial, sequence: 0 }
    }

    /// A ledger holding `root` after `sequence` batches.
    pub fn restore(root: Uint512, sequence: u64) -> (r: StateRootLedger)
        ensures
            r@ == (RootView { root, sequence: sequence as nat }),
            r@.consistent(),
    {
        StateRootLedger { root, sequence }
    }

    /// The committed root.
    pub fn current_root(&self) -> (r: Uint512)
        ensures
            r == self@.root,
    {
        self.root
    }

    /// The number of batches committed.
    pub fn sequence(&self) -> (r: u64)
        ensures
            r as nat == self@.sequence,
    {
        self.sequence
    }

    /// Replaces the root with `new_root` and returns the new sequence number.
    pub fn commit(&mut self, new_root: Uint512) -> (r: Result<u64, BridgeError>)
        ensures
            (final(self)@, r) == old(self)@.commit_step(new_root),
            final(self)@.consistent(),
    {
        match self.sequence.checked_add(1) {
            None => Err(BridgeError::SequenceOverflow),
            Some(next) => {
                self.root = new_root;
                self.sequence = next;
                Ok(next)
            },
        }
    }
}

} // verus!
