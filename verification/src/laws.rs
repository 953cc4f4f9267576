//! The laws of the escrow state machine, proved once and for all worlds.
//!
//! Each proof function states a property that relates several operations or
//! all states; the per-operation guarantees are the `ensures` of the
//! handlers themselves.

use vstd::prelude::*;
use crate::accounts::WorldView;
use crate::error::EscrowError;
use crate::instructions::make::{make_amount, make_outcome, make_salt};
use crate::instructions::refund::refund_outcome;
use crate::instructions::take::{record_of, record_open, take_outcome};
use crate::pubkey::derive_spec;

verus! {

/// Law: custody-address derivation is deterministic — equal maker, salt and
/// program identity always give an equal derived address.
pub proof fn lemma_derive_deterministic(
    m1: Seq<u8>,
    s1: u8,
    p1: Seq<u8>,
    m2: Seq<u8>,
    s2: u8,
    p2: Seq<u8>,
)
    requires
        m1 == m2,
        s1 == s2,
        p1 == p2,
    ensures
        derive_spec(m1, s1, p1) == derive_spec(m2, s2, p2),
{
}

/// Law: Make whose record slot does not sit at the address derived from the
/// maker and the payload's salt always rejects with an address mismatch;
/// the handler's contract then leaves the world unchanged.
pub proof fn lemma_make_mismatch_rejects(w: WorldView, data: Seq<u8>)
    requires
        data.len() >= 9,
        derive_spec(w.maker@, make_salt(data), w.program_id@) != w.escrow.address@,
    ensures
        make_outcome(w, data) == Err::<WorldView, EscrowError>(EscrowError::AddressMismatch),
{
}

/// Law: Make is not idempotent — after a successful Make, a second Make with
/// the same salt (hence the same derived address) rejects as a state
/// conflict, so no record is ever initialized twice.
pub proof fn lemma_make_no_double_init(w: WorldView, data1: Seq<u8>, data2: Seq<u8>)
    requires
        make_outcome(w, data1) is Ok,
        data2.len() >= 9,
        make_salt(data2) == make_salt(data1),
    ensures
        make_outcome(make_outcome(w, data1)->Ok_0, data2) == Err::<WorldView, EscrowError>(
            EscrowError::AlreadyInitialized,
        ),
{
}

/// Law: a successful Make deposits exactly the payload's amount into the
/// vault — so a vault that held nothing before holds exactly that amount
/// after.
pub proof fn lemma_make_vault_balance(w: WorldView, data: Seq<u8>)
    requires
        make_outcome(w, data) is Ok,
    ensures
        w.vault is Some,
        make_outcome(w, data)->Ok_0.vault is Some,
        make_outcome(w, data)->Ok_0.vault->Some_0.amount == w.vault->Some_0.amount + make_amount(
            data,
        ),
        w.vault->Some_0.amount == 0 ==> make_outcome(w, data)->Ok_0.vault->Some_0.amount
            == make_amount(data),
{
}

/// Law: Take succeeds only when the record's asset identities equal the
/// supplied ones; on a mismatch it rejects, and the handler's contract then
/// changes no balance on any account.
pub proof fn lemma_take_asset_mismatch(w: WorldView)
    requires
        record_open(w),
        record_of(w).mint_x != w.mint_x.address@ || record_of(w).mint_y != w.mint_y.address@,
    ensures
        take_outcome(w) == Err::<WorldView, EscrowError>(EscrowError::AssetMismatch),
{
}

/// Law: a successful Take settles both sides at once — the taker receives
/// the vault's entire pre-settlement balance of the offered asset, the maker
/// receives exactly the recorded amount of the wanted asset and both
/// released reserves, and the vault and the record no longer exist.
pub proof fn lemma_take_settlement(w: WorldView)
    requires
        take_outcome(w) is Ok,
    ensures
        w.vault is Some,
        take_outcome(w)->Ok_0.taker_ata_x.amount == w.taker_ata_x.amount
            + w.vault->Some_0.amount,
        take_outcome(w)->Ok_0.maker_ata_y.amount == w.maker_ata_y.amount + record_of(w).amount,
        take_outcome(w)->Ok_0.taker_ata_y.amount == w.taker_ata_y.amount - record_of(w).amount,
        take_outcome(w)->Ok_0.vault is None,
        take_outcome(w)->Ok_0.escrow.data.len() == 0,
        take_outcome(w)->Ok_0.escrow.lamports == 0,
        take_outcome(w)->Ok_0.maker_lamports == w.maker_lamports + w.vault->Some_0.lamports
            + w.escrow.lamports,
{
}

/// Law: a successful Refund returns the vault's entire pre-settlement
/// balance of the offered asset to the maker's holding account, credits the
/// released reserves to the maker, and the vault and the record no longer
/// exist.
pub proof fn lemma_refund_settlement(w: WorldView)
    requires
        refund_outcome(w) is Ok,
    ensures
        w.vault is Some,
        refund_outcome(w)->Ok_0.maker_ata_x.amount == w.maker_ata_x.amount
            + w.vault->Some_0.amount,
        refund_outcome(w)->Ok_0.vault is None,
        refund_outcome(w)->Ok_0.escrow.data.len() == 0,
        refund_outcome(w)->Ok_0.escrow.lamports == 0,
        refund_outcome(w)->Ok_0.maker_lamports == w.maker_lamports + w.vault->Some_0.lamports
            + w.escrow.lamports,
{
}

/// Law: settlement is at-most-once — after a successful Take, any further
/// Take or Refund on the same world rejects, because the record no longer
/// exists.
pub proof fn lemma_no_reentry_after_take(w: WorldView)
    requires
        take_outcome(w) is Ok,
    ensures
        take_outcome(take_outcome(w)->Ok_0) == Err::<WorldView, EscrowError>(
            EscrowError::InvalidRecord,
        ),
        refund_outcome(take_outcome(w)->Ok_0) == Err::<WorldView, EscrowError>(
            EscrowError::InvalidRecord,
        ),
{
}

/// Law: settlement is at-most-once — after a successful Refund, any further
/// Take or Refund on the same world rejects, because the record no longer
/// exists.
pub proof fn lemma_no_reentry_after_refund(w: WorldView)
    requires
        refund_outcome(w) is Ok,
    ensures
        take_outcome(refund_outcome(w)->Ok_0) == Err::<WorldView, EscrowError>(
            EscrowError::InvalidRecord,
        ),
        refund_outcome(refund_outcome(w)->Ok_0) == Err::<WorldView, EscrowError>(
            EscrowError::InvalidRecord,
        ),
{
}

} // verus!
