//! The account state a single escrow's lifecycle touches, as plain values.
//!
//! The host ledger loads accounts and commits or rolls back each instruction
//! atomically; this module models exactly the slice of that state one escrow
//! reads and writes, so the handlers can be verified as whole transitions.
//! The asset-transfer primitive of the token ledger is modeled by
//! [`transfer`]: it debits and credits balances and enforces authority over
//! the source account.

use vstd::prelude::*;
use crate::error::EscrowError;
use crate::pubkey::Pubkey;

verus! {

/// A fungible-asset holding account, administered by the token ledger.
#[derive(Clone, Copy)]
pub struct TokenAccount {
    /// Identity of the asset this account holds.
    pub mint: Pubkey,
    /// The party that may authorize debits from this account.
    pub authority: Pubkey,
    /// The asset balance.
    pub amount: u64,
    /// The custodial reserve funding this account's storage.
    pub lamports: u64,
}

/// An asset-identity account: recognized as a real asset of the token
/// ledger exactly when its owner is the token program.
#[derive(Clone, Copy)]
pub struct MintAccount {
    /// The asset's identity.
    pub address: Pubkey,
    /// The program that administers this account.
    pub owner: Pubkey,
}

/// A raw storage slot of the host ledger, as supplied to a handler.
#[derive(Clone)]
pub struct StorageAccount {
    /// The slot's address.
    pub address: Pubkey,
    /// The program that owns (and alone may rewrite) the slot.
    pub owner: Pubkey,
    /// The custodial reserve funding the slot's storage.
    pub lamports: u64,
    /// The slot's persisted bytes.
    pub data: Vec<u8>,
}

/// The mathematical value of a [`StorageAccount`].
#[verifier::ext_equal]
pub struct SlotView {
    pub address: Pubkey,
    pub owner: Pubkey,
    pub lamports: u64,
    pub data: Seq<u8>,
}

impl View for StorageAccount {
    type V = SlotView;

    open spec fn view(&self) -> SlotView {
        SlotView {
            address: self.address,
            owner: self.owner,
            lamports: self.lamports,
            data: self.data@,
        }
    }
}

/// Every account one escrow's lifecycle can read or write, plus the fixed
/// identities the handlers validate against. The host supplies these
/// positionally; the handlers' first duty is to prove each one genuine.
#[derive(Clone)]
pub struct World {
    /// This escrow program's identity (process-wide configuration).
    pub program_id: Pubkey,
    /// The token ledger's identity.
    pub token_program: Pubkey,
    /// The host ledger's own identity: the owner of unallocated slots.
    pub system_program: Pubkey,
    /// The custodial reserve the host requires for a record-sized slot.
    pub record_rent: u64,
    /// The maker's address.
    pub maker: Pubkey,
    /// The maker's spendable reserve, which funds the record at Make and
    /// receives all released reserves at settlement.
    pub maker_lamports: u64,
    /// The offered asset's identity account.
    pub mint_x: MintAccount,
    /// The wanted asset's identity account.
    pub mint_y: MintAccount,
    /// The maker's holding account for the offered asset.
    pub maker_ata_x: TokenAccount,
    /// The maker's holding account for the wanted asset.
    pub maker_ata_y: TokenAccount,
    /// The taker's address.
    pub taker: Pubkey,
    /// The taker's holding account for the offered asset.
    pub taker_ata_x: TokenAccount,
    /// The taker's holding account for the wanted asset.
    pub taker_ata_y: TokenAccount,
    /// The custody vault for the offered asset; `None` once closed.
    pub vault: Option<TokenAccount>,
    /// The record's storage slot.
    pub escrow: StorageAccount,
}

/// The mathematical value of a [`World`].
#[verifier::ext_equal]
pub struct WorldView {
    pub program_id: Pubkey,
    pub token_program: Pubkey,
    pub system_program: Pubkey,
    pub record_rent: u64,
    pub maker: Pubkey,
    pub maker_lamports: u64,
    pub mint_x: MintAccount,
    pub mint_y: MintAccount,
    pub maker_ata_x: TokenAccount,
    pub maker_ata_y: TokenAccount,
    pub taker: Pubkey,
    pub taker_ata_x: TokenAccount,
    pub taker_ata_y: TokenAccount,
    pub vault: Option<TokenAccount>,
    pub escrow: SlotView,
}

impl View for World {
    type V = WorldView;

    open spec fn view(&self) -> WorldView {
        WorldView {
            program_id: self.program_id,
            token_program: self.token_program,
            system_program: self.system_program,
            record_rent: self.record_rent,
            maker: self.maker,
            maker_lamports: self.maker_lamports,
            mint_x: self.mint_x,
            mint_y: self.mint_y,
            maker_ata_x: self.maker_ata_x,
            maker_ata_y: self.maker_ata_y,
            taker: self.taker,
            taker_ata_x: self.taker_ata_x,
            taker_ata_y: self.taker_ata_y,
            vault: self.vault,
            escrow: self.escrow@,
        }
    }
}

/// Why `transfer(from, to, authority, amount)` would be refused, or `None`
/// when it succeeds. The token ledger checks, in this order: authority over
/// the source, matching assets, sufficient source balance, and that the
/// credit fits the destination's balance.
pub open spec fn transfer_check(
    from: TokenAccount,
    to: TokenAccount,
    authority: Seq<u8>,
    amount: u64,
) -> Option<EscrowError> {
    if from.authority@ != authority {
        Some(EscrowError::NotAuthorized)
    } else if from.mint@ != to.mint@ {
        Some(EscrowError::MintMismatch)
    } else if from.amount < amount {
        Some(EscrowError::InsufficientBalance)
    } else if to.amount + amount > u64::MAX {
        Some(EscrowError::BalanceOverflow)
    } else {
        None
    }
}

/// The source after a successful transfer: debited by `amount`.
pub open spec fn transfer_debit(from: TokenAccount, amount: u64) -> TokenAccount
    recommends
        amount <= from.amount,
{
    TokenAccount { amount: (from.amount - amount) as u64, ..from }
}

/// The destination after a successful transfer: credited by `amount`.
pub open spec fn transfer_credit(to: TokenAccount, amount: u64) -> TokenAccount
    recommends
        to.amount + amount <= u64::MAX,
{
    TokenAccount { amount: (to.amount + amount) as u64, ..to }
}

/// Decide, without touching anything, whether a transfer would be refused.
/// Handlers run this for every transfer of a multi-step settlement before
/// performing any of them, so a late refusal cannot leave an early transfer
/// applied.
pub fn check_transfer(
    from: &TokenAccount,
    to: &TokenAccount,
    authority: &Pubkey,
    amount: u64,
) -> (r: Option<EscrowError>)
    ensures
        r == transfer_check(*from, *to, authority@, amount),
{
    if !crate::pubkey::pk_eq(&from.authority, authority) {
        Some(EscrowError::NotAuthorized)
    } else if !crate::pubkey::pk_eq(&from.mint, &to.mint) {
        Some(EscrowError::MintMismatch)
    } else if from.amount < amount {
        Some(EscrowError::InsufficientBalance)
    } else if to.amount > u64::MAX - amount {
        Some(EscrowError::BalanceOverflow)
    } else {
        None
    }
}

/// The asset-transfer collaborator: move `amount` of `from`'s asset to `to`,
/// authorized by `authority`. Fails, changing nothing, exactly as
/// [`transfer_check`] says.
pub fn transfer(
    from: &mut TokenAccount,
    to: &mut TokenAccount,
    authority: &Pubkey,
    amount: u64,
) -> (r: Result<(), EscrowError>)
    ensures
        match transfer_check(*old(from), *old(to), authority@, amount) {
            Some(e) => r == Err::<(), EscrowError>(e) && *final(from) == *old(from) && *final(to)
                == *old(to),
            None => r == Ok::<(), EscrowError>(()) && *final(from) == transfer_debit(
                *old(from),
                amount,
            ) && *final(to) == transfer_credit(*old(to), amount),
        },
{
    if !crate::pubkey::pk_eq(&from.authority, authority) {
        return Err(EscrowError::NotAuthorized);
    }
    if !crate::pubkey::pk_eq(&from.mint, &to.mint) {
        return Err(EscrowError::MintMismatch);
    }
    if from.amount < amount {
        return Err(EscrowError::InsufficientBalance);
    }
    if to.amount > u64::MAX - amount {
        return Err(EscrowError::BalanceOverflow);
    }
    from.amount = from.amount - amount;
    to.amount = to.amount + amount;
    Ok(())
}

} // verus!
