//! Addresses and the deterministic custody-address derivation.
//!
//! An address is 32 raw bytes. The program's own identity and the asset
//! ledger's identity are fixed constants, decoded from their base58 spelling;
//! the custody address of an escrow is derived from the maker's address and a
//! caller-chosen salt byte by the host's program-address derivation.

use vstd::prelude::*;

verus! {

/// A 32-byte account address.
pub type Pubkey = [u8; 32];

/// What base58 decoding yields on a 32-byte address string.
pub uninterp spec fn b58_decode_32(s: Seq<char>) -> Seq<u8>;

/// What the program-address derivation yields for the escrow seed label,
/// a maker address, a salt byte and a program identity.
pub uninterp spec fn derive_spec(maker: Seq<u8>, salt: u8, program: Seq<u8>) -> Seq<u8>;

/// This program's own identity.
///
/// Relies on `five8_const::decode_32_const`: base58 decoding of a 44-character
/// address string into its 32 raw bytes; it returns normally on this string.
#[verifier::external_body]
pub fn program_id() -> (r: Pubkey)
    ensures
        r@ == b58_decode_32("22222222222222222222222222222222222222222222"@),
{
    five8_const::decode_32_const("22222222222222222222222222222222222222222222")
}

/// The asset ledger's identity: the token program that administers all
/// fungible-asset accounts this escrow touches.
///
/// Relies on `pinocchio_token::ID`, declared as the base58 decoding of the
/// token program's address string (via `Address::from_str_const`, which
/// decodes with `five8_const::decode_32_const`).
#[verifier::external_body]
pub fn token_program_id() -> (r: Pubkey)
    ensures
        r@ == b58_decode_32("TokenkegQfeZyiNwAJbNbGKPFXCWuBvf9Ss623VQ5DA"@),
{
    pinocchio_token::ID.to_bytes()
}

/// Derive the custody address for `(maker, salt)` under `program`.
///
/// Relies on `pinocchio::Address::derive_address` (`solana_address`): the
/// SHA-256-based program-address derivation over the seeds
/// `["escrow", maker]`, the salt byte and the program identity — a function
/// of those arguments alone. Both seeds are within the 32-byte seed limit,
/// so the derivation returns normally on every input.
#[verifier::external_body]
pub fn derive_escrow_address(maker: &Pubkey, salt: u8, program: &Pubkey) -> (r: Pubkey)
    ensures
        r@ == derive_spec(maker@, salt, program@),
{
    let program = pinocchio::Address::new_from_array(*program);
    pinocchio::Address::derive_address(&[b"escrow", maker.as_slice()], Some(salt), &program)
        .to_bytes()
}

/// Byte-for-byte address equality.
pub fn pk_eq(a: &Pubkey, b: &Pubkey) -> (r: bool)
    ensures
        r == (a@ == b@),
{
    let mut i: usize = 0;
    while i < 32
        invariant
            0 <= i <= 32,
            forall|j: int| 0 <= j < i ==> a@[j] == b@[j],
        decreases 32 - i,
    {
        if a[i] != b[i] {
            return false;
        }
        i += 1;
    }
    proof {
        assert(a@ =~= b@);
    }
    true
}

} // verus!
