//! The error taxonomy of the ledger. Every failing operation reports exactly
//! one of these codes, and a failing operation never mutates any state.

use vstd::prelude::*;

verus! {

#[derive(Clone, Copy, Debug, PartialEq, Eq)]
pub enum ErrorCode {
    /// The ledger is disabled; no operation other than administration runs.
    Disabled,
    /// A deal or amount parameter violates the operation's invariants.
    InvalidParameter,
    /// A balance mutation would overflow the fixed-width counters.
    InvalidAmount,
    /// The fee exceeds (or equals) the amount it is charged against.
    FeeOverrun,
    /// The request's expiry time is not in the future.
    Expired,
    /// The signature embedded in the authorization payload differs from the
    /// declared one.
    InvalidSignature,
    /// The serial number was already claimed by an earlier operation.
    AlreadyExecuted,
    /// The asset identifier does not match the account's asset.
    InvalidMint,
    /// The caller may not perform this operation.
    Forbidden,
    /// All amounts of the operation are zero.
    ZeroAmount,
    /// The account holds less than the operation requires.
    InsufficientFunds,
    /// The available partition holds less than the operation debits.
    InsufficientAvailable,
    /// The frozen partition holds less than the operation debits.
    InsufficientFrozen,
    /// The custodial holding account is not set up for this asset.
    InvalidProgramToken,
    /// An administrative operation was attempted by a key that is neither the
    /// owner nor otherwise entitled to it.
    Unauthorized,
    /// No authorization payload accompanied the request.
    MissingEd25519Instruction,
    /// The authorization payload is malformed.
    InvalidEd25519Instruction,
    /// The public key embedded in the authorization payload is not the
    /// configured signer.
    InvalidPublicKey,
    /// The message hash embedded in the authorization payload differs from the
    /// hash of the canonical message.
    InvalidMessage,
    /// The fee recipient of the request is not the configured one.
    InvalidFeeUser,
    /// A token-account image is too short to carry an owner.
    InvalidATAOwner,
}

} // verus!
