//! Refund: return the deposit to the maker and release custody.
//!
//! Single-sided Take: the vault's entire balance of the offered asset goes
//! back to the maker's holding account, the vault is closed and the record
//! destroyed, their reserves credited to the maker. No counterparty is
//! involved; the address re-derivation alone binds the record to its maker.

use vstd::prelude::*;
use crate::accounts::{check_transfer, transfer, transfer_check, transfer_credit, SlotView, World,
    WorldView};
use crate::error::EscrowError;
use crate::instructions::take::{record_of, record_open};
use crate::pubkey::{derive_escrow_address, derive_spec, pk_eq};
use crate::state::escrow::Escrow;

verus! {

/// Why Refund would be refused, or `None` when every check passes. In order:
/// the slot must hold an open record of this program; the record's offered
/// asset must equal the supplied one; the vault must exist; the record's
/// address must re-derive from the supplied maker and the recorded salt; the
/// return transfer must be acceptable to the token ledger; and the released
/// reserves must fit the maker's balance.
pub open spec fn refund_check(w: WorldView) -> Option<EscrowError> {
    if !record_open(w) {
        Some(EscrowError::InvalidRecord)
    } else {
        let e = record_of(w);
        if e.mint_x != w.mint_x.address@ {
            Some(EscrowError::AssetMismatch)
        } else {
            match w.vault {
                None => Some(EscrowError::VaultMissing),
                Some(v) => {
                    if derive_spec(w.maker@, e.bump, w.program_id@) != w.escrow.address@ {
                        Some(EscrowError::AddressMismatch)
                    } else {
                        match transfer_check(v, w.maker_ata_x, w.escrow.address@, v.amount) {
                            Some(err) => Some(err),
                            None => {
                                if w.maker_lamports + v.lamports + w.escrow.lamports > u64::MAX {
                                    Some(EscrowError::BalanceOverflow)
                                } else {
                                    None
                                }
                            },
                        }
                    }
                },
            }
        }
    }
}

/// The world after a successful Refund: the maker's holding account receives
/// the vault's entire pre-settlement balance of the offered asset, the vault
/// is closed and the record destroyed, and both released reserves are
/// credited to the maker.
pub open spec fn refund_apply(w: WorldView) -> WorldView
    recommends
        refund_check(w) is None,
{
    match w.vault {
        Some(v) => WorldView {
            maker_ata_x: transfer_credit(w.maker_ata_x, v.amount),
            vault: None,
            maker_lamports: (w.maker_lamports + v.lamports + w.escrow.lamports) as u64,
            escrow: SlotView {
                address: w.escrow.address,
                owner: w.system_program,
                lamports: 0,
                data: Seq::empty(),
            },
            ..w
        },
        None => w,
    }
}

/// What Refund returns and leaves behind on any world.
pub open spec fn refund_outcome(w: WorldView) -> Result<WorldView, EscrowError> {
    match refund_check(w) {
        Some(e) => Err(e),
        None => Ok(refund_apply(w)),
    }
}

/// Cancel the escrow: validate the record and every supplied account, return
/// the deposit to the maker, and release custody. On any error the world is
/// unchanged.
pub fn process_refund_instruction(w: &mut World, _data: &[u8]) -> (r: Result<(), EscrowError>)
    ensures
        match refund_outcome(old(w)@) {
            Ok(v) => r == Ok::<(), EscrowError>(()) && final(w)@ == v,
            Err(e) => r == Err::<(), EscrowError>(e) && *final(w) == *old(w),
        },
{
    // the slot must hold an open record of this program
    let record = match Escrow::from_account_info(&w.escrow, &w.program_id) {
        Ok(e) => e,
        Err(e) => {
            return Err(e);
        },
    };

    // the recorded offered asset must equal the supplied one
    if !pk_eq(&record.mint_x, &w.mint_x.address) {
        return Err(EscrowError::AssetMismatch);
    }

    let v = match w.vault {
        Some(v) => v,
        None => {
            return Err(EscrowError::VaultMissing);
        },
    };

    // the record must re-derive from the supplied maker and the recorded salt
    let pda = derive_escrow_address(&w.maker, record.bump, &w.program_id);
    if !pk_eq(&pda, &w.escrow.address) {
        return Err(EscrowError::AddressMismatch);
    }

    // pre-check the whole settlement before applying any part of it
    match check_transfer(&v, &w.maker_ata_x, &w.escrow.address, v.amount) {
        Some(e) => {
            return Err(e);
        },
        None => (),
    }
    let reserve = match w.maker_lamports.checked_add(v.lamports) {
        Some(m) => m,
        None => {
            return Err(EscrowError::BalanceOverflow);
        },
    };
    let reserve = match reserve.checked_add(w.escrow.lamports) {
        Some(m) => m,
        None => {
            return Err(EscrowError::BalanceOverflow);
        },
    };

    // return the vault's entire balance of the offered asset to the maker,
    // authorized by the program as the derived record address
    let mut vault = v;
    let vault_balance = vault.amount;
    match transfer(&mut vault, &mut w.maker_ata_x, &w.escrow.address, vault_balance) {
        Ok(()) => (),
        Err(e) => {
            return Err(e);
        },
    }

    // close the vault and destroy the record, crediting both reserves to the
    // maker
    w.vault = None;
    w.maker_lamports = reserve;
    w.escrow.owner = w.system_program;
    w.escrow.lamports = 0;
    w.escrow.data = Vec::new();

    proof {
        assert(w@ =~= refund_apply(old(w)@));
    }
    Ok(())
}

} // verus!
