//! The rejection taxonomy: every way an instruction can fail.
//!
//! Every failure is terminal for the instruction and leaves the state
//! untouched; the variant tells the caller which check refused the input.

use vstd::prelude::*;

verus! {

/// A typed rejection. Instructions never partially succeed: a handler that
/// returns one of these has changed nothing.
#[derive(Debug, Clone, Copy, PartialEq, Eq, Structural)]
pub enum EscrowError {
    /// The instruction was routed to a program identity other than this one.
    IncorrectProgramId,
    /// The payload is too short for the instruction it selects.
    MalformedPayload,
    /// The opcode byte selects no known instruction.
    UnknownInstruction,
    /// The derived custody address does not equal the supplied record address.
    AddressMismatch,
    /// A supplied asset identity is not administered by the asset ledger.
    AssetNotRecognized,
    /// The vault holding account does not exist.
    VaultMissing,
    /// The vault's custody authority is not the derived record address.
    VaultAuthorityMismatch,
    /// Make found a record already open at the derived address.
    AlreadyInitialized,
    /// The record storage slot cannot be allocated: it is not a fresh,
    /// unfunded slot of the host ledger.
    SlotInUse,
    /// The maker cannot fund the record's custodial reserve.
    InsufficientFunds,
    /// The record slot does not hold an open record of this program.
    InvalidRecord,
    /// The record's asset identities do not match the supplied ones.
    AssetMismatch,
    /// An asset transfer was not authorized over its source account.
    NotAuthorized,
    /// An asset transfer's source and destination hold different assets.
    MintMismatch,
    /// An asset transfer asked for more than the source holds.
    InsufficientBalance,
    /// A credit would overflow the destination's balance.
    BalanceOverflow,
}

} // verus!
