//! Take: complete the swap and release custody.
//!
//! The taker pays the maker the recorded amount of the wanted asset, receives
//! the vault's entire balance of the offered asset, and both the vault and
//! the record are destroyed, their reserves credited to the maker. The
//! counter-payment is ordered before the vault release, and every check runs
//! before any effect, so a refused step leaves nothing applied.

use vstd::prelude::*;
use crate::accounts::{check_transfer, transfer, transfer_check, transfer_credit, transfer_debit,
    SlotView, World, WorldView};
use crate::error::EscrowError;
use crate::pubkey::{derive_escrow_address, derive_spec, pk_eq};
use crate::state::escrow::{spec_decode, Escrow, EscrowView, ESCROW_LEN};

verus! {

/// The record slot holds an open record of this program: owned by it and
/// sized exactly to the record layout.
pub open spec fn record_open(w: WorldView) -> bool {
    w.escrow.owner@ == w.program_id@ && w.escrow.data.len() == ESCROW_LEN
}

/// The record persisted in the slot.
pub open spec fn record_of(w: WorldView) -> EscrowView {
    spec_decode(w.escrow.data)
}

/// Why Take would be refused, or `None` when every check passes. In order:
/// the slot must hold an open record of this program; the record's asset
/// identities must equal the supplied ones; the vault must exist; the
/// record's address must re-derive from the supplied maker and the recorded
/// salt; the taker's counter-payment and the vault release must both be
/// acceptable to the token ledger; and the released reserves must fit the
/// maker's balance.
pub open spec fn take_check(w: WorldView) -> Option<EscrowError> {
    if !record_open(w) {
        Some(EscrowError::InvalidRecord)
    } else {
        let e = record_of(w);
        if e.mint_x != w.mint_x.address@ || e.mint_y != w.mint_y.address@ {
            Some(EscrowError::AssetMismatch)
        } else {
            match w.vault {
                None => Some(EscrowError::VaultMissing),
                Some(v) => {
                    if derive_spec(w.maker@, e.bump, w.program_id@) != w.escrow.address@ {
                        Some(EscrowError::AddressMismatch)
                    } else {
                        match transfer_check(w.taker_ata_y, w.maker_ata_y, w.taker@, e.amount) {
                            Some(err) => Some(err),
                            None => {
                                match transfer_check(v, w.taker_ata_x, w.escrow.address@, v.amount) {
                                    Some(err) => Some(err),
                                    None => {
                                        if w.maker_lamports + v.lamports + w.escrow.lamports
                                            > u64::MAX {
                                            Some(EscrowError::BalanceOverflow)
                                        } else {
                                            None
                                        }
                                    },
                                }
                            },
                        }
                    }
                },
            }
        }
    }
}

/// The world after a successful Take: the maker is paid the recorded amount
/// of the wanted asset, the taker receives the vault's entire pre-settlement
/// balance of the offered asset, the vault is closed and the record
/// destroyed, and both released reserves are credited to the maker.
pub open spec fn take_apply(w: WorldView) -> WorldView
    recommends
        take_check(w) is None,
{
    let e = record_of(w);
    match w.vault {
        Some(v) => WorldView {
            taker_ata_y: transfer_debit(w.taker_ata_y, e.amount),
            maker_ata_y: transfer_credit(w.maker_ata_y, e.amount),
            taker_ata_x: transfer_credit(w.taker_ata_x, v.amount),
            vault: None,
            maker_lamports: (w.maker_lamports + v.lamports + w.escrow.lamports) as u64,
            escrow: SlotView {
                address: w.escrow.address,
                owner: w.system_program,
                lamports: 0,
                data: Seq::empty(),
            },
            ..w
        },
        None => w,
    }
}

/// What Take returns and leaves behind on any world.
pub open spec fn take_outcome(w: WorldView) -> Result<WorldView, EscrowError> {
    match take_check(w) {
        Some(e) => Err(e),
        None => Ok(take_apply(w)),
    }
}

/// Complete the swap: validate the record and every supplied account,
/// execute the two-sided exchange, and release custody. On any error the
/// world is unchanged.
pub fn process_take_instruction(w: &mut World, _data: &[u8]) -> (r: Result<(), EscrowError>)
    ensures
        match take_outcome(old(w)@) {
            Ok(v) => r == Ok::<(), EscrowError>(()) && final(w)@ == v,
            Err(e) => r == Err::<(), EscrowError>(e) && *final(w) == *old(w),
        },
{
    // the slot must hold an open record of this program
    let record = match Escrow::from_account_info(&w.escrow, &w.program_id) {
        Ok(e) => e,
        Err(e) => {
            return Err(e);
        },
    };

    // the recorded asset identities must equal the supplied ones
    if !(pk_eq(&record.mint_x, &w.mint_x.address) && pk_eq(&record.mint_y, &w.mint_y.address)) {
        return Err(EscrowError::AssetMismatch);
    }

    let v = match w.vault {
        Some(v) => v,
        None => {
            return Err(EscrowError::VaultMissing);
        },
    };

    // the record must re-derive from the supplied maker and the recorded salt
    let pda = derive_escrow_address(&w.maker, record.bump, &w.program_id);
    if !pk_eq(&pda, &w.escrow.address) {
        return Err(EscrowError::AddressMismatch);
    }

    // pre-check the whole settlement before applying any part of it
    match check_transfer(&w.taker_ata_y, &w.maker_ata_y, &w.taker, record.amount) {
        Some(e) => {
            return Err(e);
        },
        None => (),
    }
    match check_transfer(&v, &w.taker_ata_x, &w.escrow.address, v.amount) {
        Some(e) => {
            return Err(e);
        },
        None => (),
    }
    let reserve = match w.maker_lamports.checked_add(v.lamports) {
        Some(m) => m,
        None => {
            return Err(EscrowError::BalanceOverflow);
        },
    };
    let reserve = match reserve.checked_add(w.escrow.lamports) {
        Some(m) => m,
        None => {
            return Err(EscrowError::BalanceOverflow);
        },
    };

    // counter-payment: the taker pays the maker the recorded amount of the
    // wanted asset, authorized by the taker
    let mut vault = v;
    match transfer(&mut w.taker_ata_y, &mut w.maker_ata_y, &w.taker, record.amount) {
        Ok(()) => (),
        Err(e) => {
            return Err(e);
        },
    }

    // release: the vault's entire balance of the offered asset to the taker,
    // authorized by the program as the derived record address
    let vault_balance = vault.amount;
    match transfer(&mut vault, &mut w.taker_ata_x, &w.escrow.address, vault_balance) {
        Ok(()) => (),
        Err(e) => {
            return Err(e);
        },
    }

    // close the vault and destroy the record, crediting both reserves to the
    // maker
    w.vault = None;
    w.maker_lamports = reserve;
    w.escrow.owner = w.system_program;
    w.escrow.lamports = 0;
    w.escrow.data = Vec::new();

    proof {
        assert(w@ =~= take_apply(old(w)@));
    }
    Ok(())
}

} // verus!
