//! End-to-end tests of the escrow state machine: the three instructions on
//! worlds mirroring the host harness setup, plus every rejection.

use escrow_pinocchio::accounts::{MintAccount, StorageAccount, TokenAccount, World};
use escrow_pinocchio::error::EscrowError;
use escrow_pinocchio::instructions::make::process_make_instruction;
use escrow_pinocchio::instructions::refund::process_refund_instruction;
use escrow_pinocchio::instructions::take::process_take_instruction;
use escrow_pinocchio::instructions::EscrowInstructions;
use escrow_pinocchio::process_instruction;
use escrow_pinocchio::pubkey::{derive_escrow_address, program_id, token_program_id, Pubkey};
use escrow_pinocchio::state::escrow::{Escrow, ESCROW_LEN};

const LAMPORTS_PER_SOL: u64 = 1_000_000_000;
const RECORD_RENT: u64 = 1_620_480;
const SALT: u8 = 254;

fn system_id() -> Pubkey {
    [0u8; 32]
}

/// A world ready for Make: fresh record slot at the derived address, empty
/// vault in its custody, maker funded with 100_000_000 units of asset x.
fn world_before_make() -> World {
    let maker = [0x02u8; 32];
    let taker = [0x08u8; 32];
    let mint_x = [0x03u8; 32];
    let mint_y = [0x04u8; 32];
    let pda = derive_escrow_address(&maker, SALT, &program_id());
    World {
        program_id: program_id(),
        token_program: token_program_id(),
        system_program: system_id(),
        record_rent: RECORD_RENT,
        maker,
        maker_lamports: LAMPORTS_PER_SOL,
        mint_x: MintAccount { address: mint_x, owner: token_program_id() },
        mint_y: MintAccount { address: mint_y, owner: token_program_id() },
        maker_ata_x: TokenAccount {
            mint: mint_x,
            authority: maker,
            amount: 100_000_000,
            lamports: 2_039_280,
        },
        maker_ata_y: TokenAccount { mint: mint_y, authority: maker, amount: 0, lamports: 2_039_280 },
        taker,
        taker_ata_x: TokenAccount { mint: mint_x, authority: taker, amount: 0, lamports: 2_039_280 },
        taker_ata_y: TokenAccount {
            mint: mint_y,
            authority: taker,
            amount: 1_000_000,
            lamports: 2_039_280,
        },
        vault: Some(TokenAccount { mint: mint_x, authority: pda, amount: 0, lamports: 2_039_280 }),
        escrow: StorageAccount { address: pda, owner: system_id(), lamports: 0, data: Vec::new() },
    }
}

/// A world with an escrow already open: record persisted (amount wanted
/// 1_000_000 of asset y), vault holding 2_000_000 of asset x.
fn world_with_open_escrow() -> World {
    let mut w = world_before_make();
    let record = Escrow {
        maker: w.maker,
        mint_x: w.mint_x.address,
        mint_y: w.mint_y.address,
        amount: 1_000_000,
        bump: SALT,
    };
    w.escrow.owner = w.program_id;
    w.escrow.lamports = RECORD_RENT;
    w.escrow.data = record.encode();
    if let Some(v) = w.vault.as_mut() {
        v.amount = 2_000_000;
    }
    w
}

fn make_payload(salt: u8, amount: u64) -> Vec<u8> {
    let mut data = vec![salt];
    data.extend_from_slice(&amount.to_le_bytes());
    data
}

#[test]
fn test_make() {
    let mut w = world_before_make();
    // opcode, salt, amount — with a trailing amount the handler ignores,
    // as the host harness sends it
    let data = [
        vec![0u8],
        vec![SALT],
        1_000_000u64.to_le_bytes().to_vec(),
        1_000_000u64.to_le_bytes().to_vec(),
    ]
    .concat();
    let r = process_instruction(&program_id(), &mut w, &data);
    assert_eq!(r, Ok(()));
    assert_eq!(w.vault.as_ref().unwrap().amount, 1_000_000);
    assert_eq!(w.maker_ata_x.amount, 99_000_000);
    assert_eq!(w.maker_lamports, LAMPORTS_PER_SOL - RECORD_RENT);
    assert_eq!(w.escrow.owner, program_id());
    assert_eq!(w.escrow.lamports, RECORD_RENT);
    let record = Escrow::from_account_info(&w.escrow, &program_id()).unwrap();
    assert_eq!(record.maker, w.maker);
    assert_eq!(record.mint_x, w.mint_x.address);
    assert_eq!(record.mint_y, w.mint_y.address);
    assert_eq!(record.amount, 1_000_000);
    assert_eq!(record.bump, SALT);
}

#[test]
fn test_take() {
    let mut w = world_with_open_escrow();
    let r = process_instruction(&program_id(), &mut w, &[1u8]);
    assert_eq!(r, Ok(()));
    // the taker receives the vault's entire balance and pays the recorded
    // amount of the wanted asset to the maker
    assert_eq!(w.taker_ata_x.amount, 2_000_000);
    assert_eq!(w.taker_ata_y.amount, 0);
    assert_eq!(w.maker_ata_y.amount, 1_000_000);
    // vault and record are gone; their reserves went to the maker
    assert!(w.vault.is_none());
    assert_eq!(w.escrow.data.len(), 0);
    assert_eq!(w.escrow.lamports, 0);
    assert_eq!(w.maker_lamports, LAMPORTS_PER_SOL + 2_039_280 + RECORD_RENT);
}

#[test]
fn test_refund() {
    let mut w = world_with_open_escrow();
    let r = process_instruction(&program_id(), &mut w, &[2u8]);
    assert_eq!(r, Ok(()));
    // the maker's holding account receives the vault's entire balance
    assert_eq!(w.maker_ata_x.amount, 100_000_000 + 2_000_000);
    assert!(w.vault.is_none());
    assert_eq!(w.escrow.data.len(), 0);
    assert_eq!(w.escrow.lamports, 0);
    assert_eq!(w.maker_lamports, LAMPORTS_PER_SOL + 2_039_280 + RECORD_RENT);
}

#[test]
fn derive_is_deterministic_and_not_trivial() {
    let maker = [0x02u8; 32];
    let a = derive_escrow_address(&maker, SALT, &program_id());
    let b = derive_escrow_address(&maker, SALT, &program_id());
    assert_eq!(a, b);
    // the derivation really mixes its inputs
    assert_ne!(a, maker);
    assert_ne!(a, program_id());
    assert_ne!(a, derive_escrow_address(&maker, SALT.wrapping_sub(1), &program_id()));
    assert_ne!(a, derive_escrow_address(&[0x05u8; 32], SALT, &program_id()));
}

#[test]
fn identity_constants_decode() {
    assert_ne!(program_id(), [0u8; 32]);
    assert_ne!(token_program_id(), [0u8; 32]);
    assert_ne!(program_id(), token_program_id());
    // the asset ledger identity is the constant the token crate declares
    assert_eq!(token_program_id(), pinocchio_token::ID.to_bytes());
    // the program identity is the base58 decoding of its address string
    assert_eq!(
        program_id(),
        five8_const::decode_32_const("22222222222222222222222222222222222222222222")
    );
}

#[test]
fn make_rejects_mismatched_address() {
    let mut w = world_before_make();
    w.escrow.address = [0x55u8; 32];
    let before = w.clone();
    let r = process_make_instruction(&mut w, &make_payload(SALT, 1_000_000));
    assert_eq!(r, Err(EscrowError::AddressMismatch));
    // nothing changed
    assert_eq!(w.maker_ata_x.amount, before.maker_ata_x.amount);
    assert_eq!(w.vault.as_ref().unwrap().amount, before.vault.as_ref().unwrap().amount);
    assert_eq!(w.escrow.data, before.escrow.data);
    assert_eq!(w.maker_lamports, before.maker_lamports);
}

#[test]
fn make_rejects_wrong_salt() {
    let mut w = world_before_make();
    // record slot sits at derive(maker, SALT); a different salt must miss it
    let r = process_make_instruction(&mut w, &make_payload(SALT.wrapping_add(1), 1_000_000));
    assert_eq!(r, Err(EscrowError::AddressMismatch));
}

#[test]
fn make_twice_rejects_state_conflict() {
    let mut w = world_before_make();
    assert_eq!(process_make_instruction(&mut w, &make_payload(SALT, 1_000_000)), Ok(()));
    let vault_after_first = w.vault.as_ref().unwrap().amount;
    let data_after_first = w.escrow.data.clone();
    let r = process_make_instruction(&mut w, &make_payload(SALT, 1_000_000));
    assert_eq!(r, Err(EscrowError::AlreadyInitialized));
    // no double initialization, no second deposit
    assert_eq!(w.vault.as_ref().unwrap().amount, vault_after_first);
    assert_eq!(w.escrow.data, data_after_first);
}

#[test]
fn make_deposits_exactly_the_amount() {
    let mut w = world_before_make();
    assert_eq!(w.vault.as_ref().unwrap().amount, 0);
    assert_eq!(process_make_instruction(&mut w, &make_payload(SALT, 123_456)), Ok(()));
    assert_eq!(w.vault.as_ref().unwrap().amount, 123_456);
    assert_eq!(w.maker_ata_x.amount, 100_000_000 - 123_456);
}

#[test]
fn take_rejects_asset_mismatch_without_any_transfer() {
    let mut w = world_with_open_escrow();
    w.mint_x.address = [0x77u8; 32];
    let before = w.clone();
    let r = process_take_instruction(&mut w, &[]);
    assert_eq!(r, Err(EscrowError::AssetMismatch));
    assert_eq!(w.taker_ata_x.amount, before.taker_ata_x.amount);
    assert_eq!(w.taker_ata_y.amount, before.taker_ata_y.amount);
    assert_eq!(w.maker_ata_y.amount, before.maker_ata_y.amount);
    assert_eq!(w.vault.as_ref().unwrap().amount, before.vault.as_ref().unwrap().amount);
    assert_eq!(w.escrow.data, before.escrow.data);
}

#[test]
fn take_rejects_when_counter_payment_short_without_any_transfer() {
    let mut w = world_with_open_escrow();
    w.taker_ata_y.amount = 999_999;
    let before = w.clone();
    let r = process_take_instruction(&mut w, &[]);
    assert_eq!(r, Err(EscrowError::InsufficientBalance));
    assert_eq!(w.taker_ata_x.amount, before.taker_ata_x.amount);
    assert_eq!(w.taker_ata_y.amount, before.taker_ata_y.amount);
    assert_eq!(w.maker_ata_y.amount, before.maker_ata_y.amount);
    assert_eq!(w.vault.as_ref().unwrap().amount, before.vault.as_ref().unwrap().amount);
}

#[test]
fn take_rejects_forged_record_address() {
    let mut w = world_with_open_escrow();
    // a foreign record slot: valid layout, but not at the derived address
    w.escrow.address = [0x66u8; 32];
    let r = process_take_instruction(&mut w, &[]);
    assert_eq!(r, Err(EscrowError::AddressMismatch));
}

#[test]
fn scenario_swap_settles_both_sides() {
    // the maker deposits 1_000_000 of x wanting 1_000_000 of y; the taker
    // holds enough y and no x
    let mut w = world_before_make();
    assert_eq!(process_make_instruction(&mut w, &make_payload(SALT, 1_000_000)), Ok(()));
    let vault_balance = w.vault.as_ref().unwrap().amount;
    let vault_lamports = w.vault.as_ref().unwrap().lamports;
    let maker_y_before = w.maker_ata_y.amount;
    let maker_lamports_before = w.maker_lamports;
    assert_eq!(process_take_instruction(&mut w, &[]), Ok(()));
    assert_eq!(w.taker_ata_x.amount, vault_balance);
    assert_eq!(w.maker_ata_y.amount, maker_y_before + 1_000_000);
    assert_eq!(w.taker_ata_y.amount, 0);
    assert!(w.vault.is_none());
    assert_eq!(w.escrow.data.len(), 0);
    assert_eq!(w.maker_lamports, maker_lamports_before + vault_lamports + RECORD_RENT);
}

#[test]
fn scenario_refund_restores_maker_and_blocks_take() {
    let mut w = world_before_make();
    let maker_x_before = w.maker_ata_x.amount;
    assert_eq!(process_make_instruction(&mut w, &make_payload(SALT, 1_000_000)), Ok(()));
    assert_eq!(w.maker_ata_x.amount, maker_x_before - 1_000_000);
    assert_eq!(process_refund_instruction(&mut w, &[]), Ok(()));
    // the maker's asset balance is back to its pre-deposit level
    assert_eq!(w.maker_ata_x.amount, maker_x_before);
    assert!(w.vault.is_none());
    assert_eq!(w.escrow.data.len(), 0);
    // the destroyed record cannot be taken
    assert_eq!(process_take_instruction(&mut w, &[]), Err(EscrowError::InvalidRecord));
}

#[test]
fn settled_escrow_rejects_all_reentry() {
    let mut w = world_with_open_escrow();
    assert_eq!(process_take_instruction(&mut w, &[]), Ok(()));
    assert_eq!(process_take_instruction(&mut w, &[]), Err(EscrowError::InvalidRecord));
    assert_eq!(process_refund_instruction(&mut w, &[]), Err(EscrowError::InvalidRecord));
}

#[test]
fn router_rejects_bad_inputs() {
    let mut w = world_before_make();
    assert_eq!(
        process_instruction(&[0x11u8; 32], &mut w, &[0u8]),
        Err(EscrowError::IncorrectProgramId)
    );
    assert_eq!(process_instruction(&program_id(), &mut w, &[]), Err(EscrowError::MalformedPayload));
    assert_eq!(
        process_instruction(&program_id(), &mut w, &[3u8]),
        Err(EscrowError::UnknownInstruction)
    );
    // a Make payload without the full amount is refused
    assert_eq!(
        process_instruction(&program_id(), &mut w, &[0u8, SALT, 1, 2, 3]),
        Err(EscrowError::MalformedPayload)
    );
}

#[test]
fn make_rejects_unrecognized_asset() {
    let mut w = world_before_make();
    w.mint_x.owner = [0x12u8; 32];
    let r = process_make_instruction(&mut w, &make_payload(SALT, 1_000_000));
    assert_eq!(r, Err(EscrowError::AssetNotRecognized));
}

#[test]
fn make_rejects_missing_vault() {
    let mut w = world_before_make();
    w.vault = None;
    let r = process_make_instruction(&mut w, &make_payload(SALT, 1_000_000));
    assert_eq!(r, Err(EscrowError::VaultMissing));
}

#[test]
fn make_rejects_foreign_vault_custody() {
    let mut w = world_before_make();
    if let Some(v) = w.vault.as_mut() {
        v.authority = [0x13u8; 32];
    }
    let r = process_make_instruction(&mut w, &make_payload(SALT, 1_000_000));
    assert_eq!(r, Err(EscrowError::VaultAuthorityMismatch));
}

#[test]
fn make_rejects_slot_in_use() {
    let mut w = world_before_make();
    w.escrow.lamports = 1;
    let r = process_make_instruction(&mut w, &make_payload(SALT, 1_000_000));
    assert_eq!(r, Err(EscrowError::SlotInUse));
}

#[test]
fn make_rejects_unfunded_maker() {
    let mut w = world_before_make();
    w.maker_lamports = RECORD_RENT - 1;
    let r = process_make_instruction(&mut w, &make_payload(SALT, 1_000_000));
    assert_eq!(r, Err(EscrowError::InsufficientFunds));
}

#[test]
fn make_rejects_unauthorized_deposit() {
    let mut w = world_before_make();
    w.maker_ata_x.authority = [0x14u8; 32];
    let r = process_make_instruction(&mut w, &make_payload(SALT, 1_000_000));
    assert_eq!(r, Err(EscrowError::NotAuthorized));
}

#[test]
fn make_rejects_vault_of_other_asset() {
    let mut w = world_before_make();
    if let Some(v) = w.vault.as_mut() {
        v.mint = w.mint_y.address;
    }
    let r = process_make_instruction(&mut w, &make_payload(SALT, 1_000_000));
    assert_eq!(r, Err(EscrowError::MintMismatch));
}

#[test]
fn make_rejects_deposit_beyond_balance() {
    let mut w = world_before_make();
    let r = process_make_instruction(&mut w, &make_payload(SALT, 100_000_001));
    assert_eq!(r, Err(EscrowError::InsufficientBalance));
}

#[test]
fn make_rejects_vault_balance_overflow() {
    let mut w = world_before_make();
    if let Some(v) = w.vault.as_mut() {
        v.amount = u64::MAX;
    }
    let r = process_make_instruction(&mut w, &make_payload(SALT, 1));
    assert_eq!(r, Err(EscrowError::BalanceOverflow));
}

#[test]
fn opcode_decoding() {
    assert_eq!(EscrowInstructions::try_from(&0u8), Ok(EscrowInstructions::Make));
    assert_eq!(EscrowInstructions::try_from(&1u8), Ok(EscrowInstructions::Take));
    assert_eq!(EscrowInstructions::try_from(&2u8), Ok(EscrowInstructions::Refund));
    assert_eq!(EscrowInstructions::try_from(&3u8), Err(EscrowError::UnknownInstruction));
    assert_eq!(EscrowInstructions::try_from(&255u8), Err(EscrowError::UnknownInstruction));
}

#[test]
fn record_codec_round_trips() {
    let record = Escrow {
        maker: [0x02u8; 32],
        mint_x: [0x03u8; 32],
        mint_y: [0x04u8; 32],
        amount: 0x0102030405060708,
        bump: 251,
    };
    let bytes = record.encode();
    assert_eq!(bytes.len(), ESCROW_LEN);
    // field offsets of the persisted layout
    assert_eq!(&bytes[0..32], &[0x02u8; 32]);
    assert_eq!(&bytes[32..64], &[0x03u8; 32]);
    assert_eq!(&bytes[64..96], &[0x04u8; 32]);
    assert_eq!(&bytes[96..104], &0x0102030405060708u64.to_le_bytes());
    assert_eq!(bytes[104], 251);
    let back = Escrow::decode(&bytes).unwrap();
    assert_eq!(back.maker, record.maker);
    assert_eq!(back.mint_x, record.mint_x);
    assert_eq!(back.mint_y, record.mint_y);
    assert_eq!(back.amount, record.amount);
    assert_eq!(back.bump, record.bump);
    assert!(Escrow::decode(&bytes[..104]).is_none());
    assert!(Escrow::decode(&[]).is_none());
}

#[test]
fn record_loaders_validate() {
    let w = world_with_open_escrow();
    assert!(Escrow::from_account_info(&w.escrow, &program_id()).is_ok());
    assert!(Escrow::from_account_info_unchecked(&w.escrow).is_ok());
    // wrong owner: only the validated loader refuses
    assert_eq!(
        Escrow::from_account_info(&w.escrow, &[0x15u8; 32]),
        Err(EscrowError::InvalidRecord)
    );
    assert!(Escrow::from_account_info_unchecked(&w.escrow).is_ok());
    // wrong size: both refuse
    let empty = StorageAccount {
        address: w.escrow.address,
        owner: w.escrow.owner,
        lamports: 0,
        data: Vec::new(),
    };
    assert_eq!(Escrow::from_account_info(&empty, &program_id()), Err(EscrowError::InvalidRecord));
    assert_eq!(Escrow::from_account_info_unchecked(&empty), Err(EscrowError::InvalidRecord));
}
