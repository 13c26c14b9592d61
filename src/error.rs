//! The errors an operation can end with.

use vstd::prelude::*;

verus! {

/// Why an operation was refused. Every error leaves no persisted change.
#[derive(Clone, Copy, Debug, PartialEq, Eq, Structural)]
pub enum ErrorCode {
    /// The instruction payload is empty, has an unknown tag, or is truncated.
    InvalidInstructionData,
    /// Fewer accounts were given than the operation takes.
    NotEnoughAccountKeys,
    /// A stored record is too short, has the wrong size, or is not initialized.
    InvalidAccountData,
    /// An account presented for a derived slot is not the derived address.
    InvalidAddress,
    /// An account that must sign the call did not.
    MissingRequiredSignature,
    /// The record belongs to another owner, or the configuration to another
    /// authority.
    UnauthorizedUser,
    /// The receiving account is not the configured delegate.
    UnauthorizedDelegate,
    /// A deposit of zero.
    InvalidAmount,
    /// An intent whose signature is malformed or not attested as the
    /// owner's signature over the intent hash.
    InvalidSignature,
    /// An intent that was executed before.
    IntentReplayed,
    /// The ciphertext of an intent does not encrypt its plaintext amount.
    AmountMismatch,
    /// The encrypted balance does not cover the amount.
    InsufficientFunds,
    /// A plaintext balance would leave the range of its integer type.
    ArithmeticOverflow,
    /// The coprocessor or the ledger failed, or answered with malformed data.
    ExternalService,
}

} // verus!
