//! The escrow record: the sole persisted entity, and its fixed-size codec.
//!
//! A record is 105 bytes: maker (32), offered asset (32), wanted asset (32),
//! amount wanted (8, little-endian), derivation salt (1) — in that order,
//! with no padding and no version tag.

use vstd::prelude::*;
use crate::accounts::StorageAccount;
use crate::error::EscrowError;
use crate::pubkey::Pubkey;

verus! {

broadcast use vstd::array::group_array_axioms;

/// The persisted size of a record in bytes.
pub const ESCROW_LEN: usize = 105;

/// One open escrow's terms and identity.
///
/// `amount` is the quantity of `mint_y` the taker must pay to complete the
/// trade. The quantity deposited is not persisted here: the vault's balance,
/// read at settlement time, is the authoritative offered amount.
#[derive(Debug, Clone, Copy, PartialEq, Eq)]
pub struct Escrow {
    /// The depositor's address.
    pub maker: Pubkey,
    /// Identity of the asset deposited into the vault.
    pub mint_x: Pubkey,
    /// Identity of the asset wanted in return.
    pub mint_y: Pubkey,
    /// Quantity of `mint_y` required to complete the trade.
    pub amount: u64,
    /// The salt byte under which this record's address was derived.
    pub bump: u8,
}

/// The mathematical value of a record: each address as its byte sequence.
#[verifier::ext_equal]
pub struct EscrowView {
    pub maker: Seq<u8>,
    pub mint_x: Seq<u8>,
    pub mint_y: Seq<u8>,
    pub amount: u64,
    pub bump: u8,
}

impl View for Escrow {
    type V = EscrowView;

    open spec fn view(&self) -> EscrowView {
        EscrowView {
            maker: self.maker@,
            mint_x: self.mint_x@,
            mint_y: self.mint_y@,
            amount: self.amount,
            bump: self.bump,
        }
    }
}

/// What a 105-byte buffer decodes to: the fields at their fixed offsets.
pub open spec fn spec_decode(d: Seq<u8>) -> EscrowView
    recommends
        d.len() == ESCROW_LEN,
{
    EscrowView {
        maker: d.subrange(0, 32),
        mint_x: d.subrange(32, 64),
        mint_y: d.subrange(64, 96),
        amount: vstd::bytes::spec_u64_from_le_bytes(d.subrange(96, 104)),
        bump: d[104],
    }
}

impl Escrow {
    /// The exact 105-byte encoding of this record.
    pub open spec fn spec_bytes(self) -> Seq<u8> {
        self.maker@ + self.mint_x@ + self.mint_y@
            + vstd::bytes::spec_u64_to_le_bytes(self.amount) + seq![self.bump]
    }

    /// Serialize the record to its 105-byte layout.
    pub fn encode(&self) -> (out: Vec<u8>)
        ensures
            out@ == self.spec_bytes(),
            out@.len() == ESCROW_LEN,
    {
        let mut out: Vec<u8> = Vec::new();
        push_pk(&mut out, &self.maker);
        push_pk(&mut out, &self.mint_x);
        push_pk(&mut out, &self.mint_y);
        let mut amt = vstd::bytes::u64_to_le_bytes(self.amount);
        out.append(&mut amt);
        out.push(self.bump);
        proof {
            vstd::bytes::lemma_auto_spec_u64_to_from_le_bytes();
            assert(out@ =~= self.spec_bytes());
        }
        out
    }

    /// Deserialize a record from a 105-byte buffer; any other length is
    /// rejected.
    pub fn decode(data: &[u8]) -> (r: Option<Escrow>)
        ensures
            match r {
                Some(e) => data@.len() == ESCROW_LEN && e@ == spec_decode(data@),
                None => data@.len() != ESCROW_LEN,
            },
    {
        if data.len() != ESCROW_LEN {
            return None;
        }
        let maker = read_pk(data, 0);
        let mint_x = read_pk(data, 32);
        let mint_y = read_pk(data, 64);
        let amount = vstd::bytes::u64_from_le_bytes(vstd::slice::slice_subrange(data, 96, 104));
        let bump = data[104];
        let r = Escrow { maker, mint_x, mint_y, amount, bump };
        proof {
            assert(r@ =~= spec_decode(data@));
        }
        Some(r)
    }

    /// Load a record from a storage slot, checking only that the slot is
    /// sized exactly to the record layout; the owner is not validated.
    pub fn from_account_info_unchecked(account_info: &StorageAccount) -> (r: Result<
        Escrow,
        EscrowError,
    >)
        ensures
            match r {
                Ok(e) => account_info@.data.len() == ESCROW_LEN && e@ == spec_decode(
                    account_info@.data,
                ),
                Err(err) => err == EscrowError::InvalidRecord && account_info@.data.len()
                    != ESCROW_LEN,
            },
    {
        match Escrow::decode(account_info.data.as_slice()) {
            Some(e) => Ok(e),
            None => Err(EscrowError::InvalidRecord),
        }
    }

    /// Load a record from a storage slot after validating that the slot is
    /// owned by `program_id` and sized exactly to the record layout.
    pub fn from_account_info(account_info: &StorageAccount, program_id: &Pubkey) -> (r: Result<
        Escrow,
        EscrowError,
    >)
        ensures
            match r {
                Ok(e) => account_info@.owner@ == program_id@ && account_info@.data.len()
                    == ESCROW_LEN && e@ == spec_decode(account_info@.data),
                Err(err) => err == EscrowError::InvalidRecord && !(account_info@.owner@
                    == program_id@ && account_info@.data.len() == ESCROW_LEN),
            },
    {
        if !crate::pubkey::pk_eq(&account_info.owner, program_id) {
            return Err(EscrowError::InvalidRecord);
        }
        Escrow::from_account_info_unchecked(account_info)
    }
}

/// Round trip: a record's own encoding decodes back to the record.
pub proof fn lemma_encode_decode(e: Escrow)
    ensures
        spec_decode(e.spec_bytes()) == e@,
{
    vstd::bytes::lemma_auto_spec_u64_to_from_le_bytes();
    let d = e.spec_bytes();
    assert(e.maker@ =~= d.subrange(0, 32));
    assert(e.mint_x@ =~= d.subrange(32, 64));
    assert(e.mint_y@ =~= d.subrange(64, 96));
    assert(vstd::bytes::spec_u64_to_le_bytes(e.amount) =~= d.subrange(96, 104));
    assert(spec_decode(d) =~= e@);
}

/// Append an address's 32 bytes to a buffer.
fn push_pk(out: &mut Vec<u8>, a: &Pubkey)
    ensures
        final(out)@ == old(out)@ + a@,
{
    let ghost out0 = out@;
    let mut i: usize = 0;
    while i < 32
        invariant
            0 <= i <= 32,
            out@ == out0 + a@.take(i as int),
        decreases 32 - i,
    {
        out.push(a[i]);
        proof {
            assert(out0 + a@.take(i as int) + seq![a@[i as int]] =~= out0 + a@.take(
                i as int + 1,
            ));
        }
        i += 1;
    }
    proof {
        assert(a@.take(32) =~= a@);
    }
}

/// Read 32 bytes at `off` as an address.
fn read_pk(data: &[u8], off: usize) -> (r: Pubkey)
    requires
        off + 32 <= data@.len(),
    ensures
        r@ == data@.subrange(off as int, off as int + 32),
{
    let n = data.len();
    let mut r: Pubkey = [0u8; 32];
    let mut i: usize = 0;
    while i < 32
        invariant
            0 <= i <= 32,
            n == data@.len(),
            off + 32 <= data@.len(),
            forall|j: int| 0 <= j < i ==> r@[j] == data@[off + j],
        decreases 32 - i,
    {
        r[i] = data[off + i];
        i += 1;
    }
    proof {
        assert(r@ =~= data@.subrange(off as int, off as int + 32));
    }
    r
}

} // verus!
