//! Make: open an escrow and move the offered asset into custody.
//!
//! Payload (after the opcode byte): `[salt:1][amount:8 little-endian]`.
//! The one amount is both the quantity deposited into the vault and the
//! quantity of the wanted asset recorded as the taker's required payment;
//! the vault balance, read at settlement, stays the authoritative deposit.

use vstd::prelude::*;
use crate::accounts::{transfer, transfer_check, transfer_credit, transfer_debit, SlotView, World,
    WorldView};
use crate::error::EscrowError;
use crate::pubkey::{derive_escrow_address, derive_spec, pk_eq};
use crate::state::escrow::Escrow;

verus! {

/// The salt byte of a Make payload.
pub open spec fn make_salt(data: Seq<u8>) -> u8 {
    data[0]
}

/// The amount of a Make payload.
pub open spec fn make_amount(data: Seq<u8>) -> u64 {
    vstd::bytes::spec_u64_from_le_bytes(data.subrange(1, 9))
}

/// The record Make persists: the maker's identity, both asset identities,
/// the amount, and the salt under which the record's address was derived.
pub open spec fn make_record(w: WorldView, salt: u8, amount: u64) -> Escrow {
    Escrow { maker: w.maker, mint_x: w.mint_x.address, mint_y: w.mint_y.address, amount, bump: salt }
}

/// Why Make would be refused, or `None` when every check passes. The checks
/// run in this order: the supplied record slot must sit at the derived
/// custody address; both asset identities must be administered by the token
/// ledger; the vault must exist with the derived address as its custody
/// authority; no record may be open at the slot already; the slot must be a
/// fresh, unfunded slot of the host ledger; the maker must be able to fund
/// its reserve; and the deposit transfer itself must be acceptable.
pub open spec fn make_check(w: WorldView, salt: u8, amount: u64) -> Option<EscrowError> {
    if derive_spec(w.maker@, salt, w.program_id@) != w.escrow.address@ {
        Some(EscrowError::AddressMismatch)
    } else if w.mint_x.owner@ != w.token_program@ || w.mint_y.owner@ != w.token_program@ {
        Some(EscrowError::AssetNotRecognized)
    } else {
        match w.vault {
            None => Some(EscrowError::VaultMissing),
            Some(v) => {
                if v.authority@ != w.escrow.address@ {
                    Some(EscrowError::VaultAuthorityMismatch)
                } else if w.escrow.owner@ == w.program_id@ {
                    Some(EscrowError::AlreadyInitialized)
                } else if !(w.escrow.owner@ == w.system_program@ && w.escrow.lamports == 0
                    && w.escrow.data.len() == 0) {
                    Some(EscrowError::SlotInUse)
                } else if w.maker_lamports < w.record_rent {
                    Some(EscrowError::InsufficientFunds)
                } else {
                    transfer_check(w.maker_ata_x, v, w.maker@, amount)
                }
            },
        }
    }
}

/// The world after a successful Make: the maker funded the record's reserve,
/// the slot holds the encoded record under this program's ownership, and
/// `amount` of the offered asset moved from the maker's holding account into
/// the vault.
pub open spec fn make_apply(w: WorldView, salt: u8, amount: u64) -> WorldView
    recommends
        make_check(w, salt, amount) is None,
{
    match w.vault {
        Some(v) => WorldView {
            maker_lamports: (w.maker_lamports - w.record_rent) as u64,
            maker_ata_x: transfer_debit(w.maker_ata_x, amount),
            vault: Some(transfer_credit(v, amount)),
            escrow: SlotView {
                address: w.escrow.address,
                owner: w.program_id,
                lamports: w.record_rent,
                data: make_record(w, salt, amount).spec_bytes(),
            },
            ..w
        },
        None => w,
    }
}

/// What Make returns and leaves behind on any world and payload.
pub open spec fn make_outcome(w: WorldView, data: Seq<u8>) -> Result<WorldView, EscrowError> {
    if data.len() < 9 {
        Err(EscrowError::MalformedPayload)
    } else {
        match make_check(w, make_salt(data), make_amount(data)) {
            Some(e) => Err(e),
            None => Ok(make_apply(w, make_salt(data), make_amount(data))),
        }
    }
}

/// Open an escrow: validate every supplied account against the derived
/// custody address, persist the record, and deposit the offered asset into
/// the vault. On any error the world is unchanged.
pub fn process_make_instruction(w: &mut World, data: &[u8]) -> (r: Result<(), EscrowError>)
    ensures
        match make_outcome(old(w)@, data@) {
            Ok(v) => r == Ok::<(), EscrowError>(()) && final(w)@ == v,
            Err(e) => r == Err::<(), EscrowError>(e) && *final(w) == *old(w),
        },
{
    if data.len() < 9 {
        return Err(EscrowError::MalformedPayload);
    }
    let salt = data[0];
    let amount = vstd::bytes::u64_from_le_bytes(vstd::slice::slice_subrange(data, 1, 9));
    proof {
        assert(salt == make_salt(data@));
        assert(amount == make_amount(data@));
    }

    // the supplied record slot must sit at the derived custody address
    let pda = derive_escrow_address(&w.maker, salt, &w.program_id);
    if !pk_eq(&pda, &w.escrow.address) {
        return Err(EscrowError::AddressMismatch);
    }

    // both asset identities must be administered by the token ledger
    if !(pk_eq(&w.mint_x.owner, &w.token_program) && pk_eq(&w.mint_y.owner, &w.token_program)) {
        return Err(EscrowError::AssetNotRecognized);
    }

    // the vault must exist, in custody of the derived record address
    let mut v = match w.vault {
        Some(v) => v,
        None => {
            return Err(EscrowError::VaultMissing);
        },
    };
    if !pk_eq(&v.authority, &w.escrow.address) {
        return Err(EscrowError::VaultAuthorityMismatch);
    }

    // the record must not be open already, and the slot must be fresh
    if pk_eq(&w.escrow.owner, &w.program_id) {
        return Err(EscrowError::AlreadyInitialized);
    }
    if !(pk_eq(&w.escrow.owner, &w.system_program) && w.escrow.lamports == 0
        && w.escrow.data.len() == 0) {
        return Err(EscrowError::SlotInUse);
    }
    if w.maker_lamports < w.record_rent {
        return Err(EscrowError::InsufficientFunds);
    }

    // deposit the offered asset: maker's holding account into the vault,
    // authorized by the maker itself
    match transfer(&mut w.maker_ata_x, &mut v, &w.maker, amount) {
        Ok(()) => (),
        Err(e) => {
            return Err(e);
        },
    }
    w.vault = Some(v);

    // allocate the record slot, funded by the maker, and persist the record
    w.maker_lamports = w.maker_lamports - w.record_rent;
    w.escrow.owner = w.program_id;
    w.escrow.lamports = w.record_rent;
    let record = Escrow {
        maker: w.maker,
        mint_x: w.mint_x.address,
        mint_y: w.mint_y.address,
        amount,
        bump: salt,
    };
    w.escrow.data = record.encode();

    proof {
        assert(w@ =~= make_apply(old(w)@, salt, amount));
    }
    Ok(())
}

} // verus!
