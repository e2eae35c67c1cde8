use vstd::prelude::*;
use crate::error::BridgeError;
use crate::uint::{uint512_bound, Uint512};

verus! {

/// The escrow as numbers: the custodial balance and the two running totals.
pub struct EscrowView {
    pub balance: nat,
    pub deposited: nat,
    pub withdrawn: nat,
}

impl EscrowView {
    /// The zeroed escrow of a freshly initialized bridge.
    pub open spec fn empty() -> EscrowView {
        EscrowView { balance: 0, deposited: 0, withdrawn: 0 }
    }

    /// The balance is what was deposited less what was withdrawn, and the
    /// deposit total fits in 512 bits.
    pub open spec fn consistent(self) -> bool {
        &&& self.withdrawn <= self.deposited
        &&& self.balance == self.deposited - self.withdrawn
        &&& self.deposited < uint512_bound()
    }

    /// Crediting `amount`: the balance and the deposit total grow by it,
    /// unless the deposit total would leave 512 bits.
    pub open spec fn credit_step(self, amount: nat) -> (EscrowView, Result<(), BridgeError>) {
        if self.deposited + amount >= uint512_bound() {
            (self, Err(BridgeError::AmountOverflow))
        } else {
            (
                EscrowView {
                    balance: self.balance + amount,
                    deposited: self.deposited + amount,
                    withdrawn: self.withdrawn,
                },
                Ok(()),
            )
        }
    }

    /// Debiting `amount`: the balance shrinks and the withdrawal total grows
    /// by it, unless it exceeds the balance.
    pub open spec fn debit_step(self, amount: nat) -> (EscrowView, Result<(), BridgeError>) {
        if amount > self.balance {
            (self, Err(BridgeError::InsufficientEscrow))
        } else {
            (
                EscrowView {
                    balance: (self.balance - amount) as nat,
                    deposited: self.deposited,
                    withdrawn: self.withdrawn + amount,
                },
                Ok(()),
            )
        }
    }
}

/// Custodial balance of the bridge with its running deposit and withdrawal
/// totals.
#[derive(Clone, Copy, Debug, PartialEq, Eq)]
pub struct EscrowLedger {
    balance: Uint512,
    total_deposited: Uint512,
    total_withdrawn: Uint512,
}

impl View for EscrowLedger {
    type V = EscrowView;

    closed spec fn view(&self) -> EscrowView {
        EscrowView {
            balance: self.balance.value(),
            deposited: self.total_deposited.value(),
            withdrawn: self.total_withdrawn.value(),
        }
    }
}

impl EscrowLedger {
    /// An escrow holding nothing, with both totals at zero.
    pub fn new() -> (r: EscrowLedger)
        ensures
            r@ == EscrowView::empty(),
            r@.consistent(),
    {
        let zero = Uint512::zero();
        proof {
            zero.lemma_value_bound();
        }
        EscrowLedger { balance: zero, total_deposited: zero, total_withdrawn: zero }
    }

    /// The escrow with the given balance and totals, or `None` where the
    /// balance is not the deposit total less the withdrawal total.
    pub fn restore(balance: Uint512, total_deposited: Uint512, total_withdrawn: Uint512) -> (r:
        Option<EscrowLedger>)
        ensures
            r is Some <==> total_withdrawn.value() <= total_deposited.value() && balance.value()
                == total_deposited.value() - total_withdrawn.value(),
            r matches Some(e) ==> e@ == (EscrowView {
                balance: balance.value(),
                deposited: total_deposited.value(),
                withdrawn: total_withdrawn.value(),
            }) && e@.consistent(),
    {
        match total_deposited.checked_sub(total_withdrawn) {
            None => None,
            Some(expected) => {
                if expected.same_value(balance) {
                    proof {
                        total_deposited.lemma_value_bound();
                    }
                    Some(EscrowLedger { balance, total_deposited, total_withdrawn })
                } else {
                    None
                }
            },
        }
    }

    /// The custodial balance.
    pub fn balance(&self) -> (r: Uint512)
        ensures
            r.value() == self@.balance,
    {
        self.balance
    }

    /// The sum of all credited amounts.
    pub fn total_deposited(&self) -> (r: Uint512)
        ensures
            r.value() == self@.deposited,
    {
        self.total_deposited
    }

    /// The sum of all debited amounts.
    pub fn total_withdrawn(&self) -> (r: Uint512)
        ensures
            r.value() == self@.withdrawn,
    {
        self.total_withdrawn
    }

    /// Records a deposit of `amount` into custody.
    pub fn credit(&mut self, amount: Uint512) -> (r: Result<(), BridgeError>)
        requires
            old(self)@.consistent(),
        ensures
            (final(self)@, r) == old(self)@.credit_step(amount.value()),
            final(self)@.consistent(),
    {
        match self.total_deposited.checked_add(amount) {
            None => Err(BridgeError::AmountOverflow),
            Some(deposited) => {
                let balance = self.balance.checked_add(amount);
                match balance {
                    Some(balance) => {
                        self.balance = balance;
                        self.total_deposited = deposited;
                        Ok(())
                    },
                    // the balance never exceeds the deposit total, so this
                    // sum fits wherever the deposit total's does
                    None => Err(BridgeError::AmountOverflow),
                }
            },
        }
    }

    /// Records a withdrawal of `amount` out of custody.
    pub fn debit(&mut self, amount: Uint512) -> (r: Result<(), BridgeError>)
        requires
            old(self)@.consistent(),
        ensures
            (final(self)@, r) == old(self)@.debit_step(amount.value()),
            final(self)@.consistent(),
    {
        match self.balance.checked_sub(amount) {
            None => Err(BridgeError::InsufficientEscrow),
            Some(balance) => {
                proof {
                    self.total_deposited.lemma_value_bound();
                }
                match self.total_withdrawn.checked_add(amount) {
                    Some(withdrawn) => {
                        self.balance = balance;
                        self.total_withdrawn = withdrawn;
                        Ok(())
                    },
                    // the withdrawal total plus a covered amount stays
                    // within the deposit total, so this sum always fits
                    None => Err(BridgeError::InsufficientEscrow),
                }
            },
        }
    }
}

} // verus!
