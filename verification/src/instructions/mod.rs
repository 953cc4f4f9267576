pub mod make;
pub mod refund;
pub mod take;

use vstd::prelude::*;
use crate::error::EscrowError;

verus! {

/// The three instructions, selected by the leading opcode byte.
#[derive(Debug, Clone, Copy, PartialEq, Eq, Structural)]
pub enum EscrowInstructions {
    /// Opcode 0: open an escrow and deposit the offered asset.
    Make,
    /// Opcode 1: complete the swap and release custody.
    Take,
    /// Opcode 2: cancel and return the deposit to the maker.
    Refund,
}

impl EscrowInstructions {
    /// Decode an opcode byte; any byte above 2 selects no instruction.
    pub fn try_from(value: &u8) -> (r: Result<EscrowInstructions, EscrowError>)
        ensures
            *value == 0 ==> r == Ok::<EscrowInstructions, EscrowError>(EscrowInstructions::Make),
            *value == 1 ==> r == Ok::<EscrowInstructions, EscrowError>(EscrowInstructions::Take),
            *value == 2 ==> r == Ok::<EscrowInstructions, EscrowError>(EscrowInstructions::Refund),
            *value > 2 ==> r == Err::<EscrowInstructions, EscrowError>(
                EscrowError::UnknownInstruction,
            ),
    {
        match *value {
            0 => Ok(EscrowInstructions::Make),
            1 => Ok(EscrowInstructions::Take),
            2 => Ok(EscrowInstructions::Refund),
            _ => Err(EscrowError::UnknownInstruction),
        }
    }
}

} // verus!
