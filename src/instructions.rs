//! The two instructions: their payload codecs and their handlers.
use vstd::prelude::*;
use crate::error::EscrowError;

pub mod make;
pub mod take;

pub use make::{
    check_make_accounts, make_escrow, plan_make, MakeAccounts, MakeEffects, MakeEscrowIx,
};
pub use take::{plan_take, take_escrow, TakeAccounts, TakeEffects, TakeEscrowIx};

verus! {

/// Which handler an instruction's leading byte selects.
#[derive(Debug, Clone, Copy, PartialEq, Eq, Structural)]
pub enum InstructionKind {
    /// Tag `0x01`: make an escrow.
    Make,
    /// Tag `0x02`: take an escrow.
    Take,
}

/// The handler that an instruction selects: its first byte must be `0x01`
/// or `0x02`, and anything else, the empty instruction included, is
/// malformed. The rest of the bytes are the handler's payload.
pub open spec fn spec_route(data: Seq<u8>) -> Result<InstructionKind, EscrowError> {
    if data.len() == 0 {
        Err(EscrowError::InvalidInstructionData)
    } else if data[0] == 1 {
        Ok(InstructionKind::Make)
    } else if data[0] == 2 {
        Ok(InstructionKind::Take)
    } else {
        Err(EscrowError::InvalidInstructionData)
    }
}

pub fn route(data: &[u8]) -> (r: Result<InstructionKind, EscrowError>)
    ensures
        r == spec_route(data@),
{
    if data.len() == 0 {
        return Err(EscrowError::InvalidInstructionData);
    }
    match data[0] {
        1 => Ok(InstructionKind::Make),
        2 => Ok(InstructionKind::Take),
        _ => Err(EscrowError::InvalidInstructionData),
    }
}

/// An instruction with an unknown tag, or a make payload shorter than its
/// fixed width, or a take payload of any other width, is refused as
/// malformed. Neither decision reads an account, and a refused
/// instruction has no effect.
pub proof fn lemma_malformed_instruction_rejected(data: Seq<u8>)
    ensures
        (data.len() == 0 || (data[0] != 1 && data[0] != 2)) ==> spec_route(data)
            == Err::<InstructionKind, EscrowError>(EscrowError::InvalidInstructionData),
        data.len() < MakeEscrowIx::LEN ==> !MakeEscrowIx::decodable(data),
        data.len() != TakeEscrowIx::LEN ==> TakeEscrowIx::spec_unpack(data) is None,
{
}

} // verus!
