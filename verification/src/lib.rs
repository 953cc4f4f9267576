//! A verified model of a three-operation escrow service.
//!
//! A maker deposits an amount of one fungible asset into a custody vault and
//! names the amount of a second asset wanted in return; a taker can complete
//! the swap atomically, or the maker can cancel and reclaim the deposit.
//! The model keeps the whole account state as plain values, so every handler
//! is a verified transition: it either performs all of its effects or returns
//! an error and leaves the state untouched.

pub mod accounts;
pub mod error;
pub mod instructions;
pub mod laws;
pub mod pubkey;
pub mod state;

use vstd::prelude::*;
use crate::accounts::{World, WorldView};
use crate::error::EscrowError;
use crate::instructions::make::{make_outcome, process_make_instruction};
use crate::instructions::refund::{process_refund_instruction, refund_outcome};
use crate::instructions::take::{process_take_instruction, take_outcome};
use crate::instructions::EscrowInstructions;
use crate::pubkey::{pk_eq, Pubkey};

verus! {

/// What one routed instruction returns and leaves behind: the instruction
/// must name this program, the payload must carry an opcode byte, and the
/// rest is the selected handler's outcome on the remaining payload.
pub open spec fn instruction_outcome(
    w: WorldView,
    program_id: Seq<u8>,
    data: Seq<u8>,
) -> Result<WorldView, EscrowError> {
    if program_id != w.program_id@ {
        Err(EscrowError::IncorrectProgramId)
    } else if data.len() == 0 {
        Err(EscrowError::MalformedPayload)
    } else if data[0] == 0 {
        make_outcome(w, data.subrange(1, data.len() as int))
    } else if data[0] == 1 {
        take_outcome(w)
    } else if data[0] == 2 {
        refund_outcome(w)
    } else {
        Err(EscrowError::UnknownInstruction)
    }
}

/// Route one instruction: check the program identity, split off the opcode
/// byte, and dispatch to the matching handler. On any error the world is
/// unchanged.
pub fn process_instruction(program_id: &Pubkey, w: &mut World, data: &[u8]) -> (r: Result<
    (),
    EscrowError,
>)
    ensures
        match instruction_outcome(old(w)@, program_id@, data@) {
            Ok(v) => r == Ok::<(), EscrowError>(()) && final(w)@ == v,
            Err(e) => r == Err::<(), EscrowError>(e) && *final(w) == *old(w),
        },
{
    if !pk_eq(program_id, &w.program_id) {
        return Err(EscrowError::IncorrectProgramId);
    }
    if data.len() == 0 {
        return Err(EscrowError::MalformedPayload);
    }
    let discriminator = data[0];
    let rest = vstd::slice::slice_subrange(data, 1, data.len());
    match EscrowInstructions::try_from(&discriminator) {
        Ok(EscrowInstructions::Make) => process_make_instruction(w, rest),
        Ok(EscrowInstructions::Take) => process_take_instruction(w, rest),
        Ok(EscrowInstructions::Refund) => process_refund_instruction(w, rest),
        Err(e) => Err(e),
    }
}

} // verus!
