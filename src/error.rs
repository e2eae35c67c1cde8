use vstd::prelude::*;

verus! {

/// Why an operation of the bridge was refused. A refused operation leaves the
/// bridge as it was.
#[derive(Clone, Copy, Debug, PartialEq, Eq, Structural)]
pub enum BridgeError {
    /// `init` on a bridge that is already initialized.
    AlreadyInitialized,
    /// An operation other than `init` on a bridge that is not initialized.
    NotInitialized,
    /// The caller is not the designated sequencer.
    Unauthorized,
    /// The proof gate rejected the proof.
    InvalidProof,
    /// The batch counter is at its largest value.
    SequenceOverflow,
    /// The running deposit total would leave 512 bits.
    AmountOverflow,
    /// The withdrawal exceeds the escrow balance.
    InsufficientEscrow,
    /// The custody primitive could not move the funds.
    TransferFailed,
}

impl BridgeError {
    /// The numeric code under which a host reports this error to callers.
    pub open spec fn spec_code(self) -> u16 {
        match self {
            BridgeError::AlreadyInitialized => 1,
            BridgeError::NotInitialized => 2,
            BridgeError::Unauthorized => 3,
            BridgeError::InvalidProof => 4,
            BridgeError::SequenceOverflow => 5,
            BridgeError::AmountOverflow => 6,
            BridgeError::InsufficientEscrow => 7,
            BridgeError::TransferFailed => 8,
        }
    }

    /// The numeric code of this error; distinct errors have distinct codes.
    pub fn code(&self) -> (r: u16)
        ensures
            r == self.spec_code(),
            1 <= r <= 8,
    {
        match self {
            BridgeError::AlreadyInitialized => 1,
            BridgeError::NotInitialized => 2,
            BridgeError::Unauthorized => 3,
            BridgeError::InvalidProof => 4,
            BridgeError::SequenceOverflow => 5,
            BridgeError::AmountOverflow => 6,
            BridgeError::InsufficientEscrow => 7,
            BridgeError::TransferFailed => 8,
        }
    }
}

} // verus!
