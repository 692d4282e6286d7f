//! Error codes of the escrow protocol.
use vstd::prelude::*;

verus! {

/// The protocol's own failure reasons, reported to the host as a custom code.
#[derive(Debug, Clone, Copy, PartialEq, Eq, Structural)]
pub enum EscrowErrorCode {
    InvalidMaker,
    EscrowAlreadyExists,
    TokenAccountAlreadyExists,
    PdaMismatch,
    InvalidTokenOwner,
    InvalidMakerTokenAccount,
    InvalidTokenMint,
    MintMismatch,
    InvalidEscrowType,
    InsufficientFunds,
}

impl EscrowErrorCode {
    /// The number carried in the host's custom failure report: the position
    /// of the variant in declaration order.
    pub open spec fn spec_code(self) -> u32 {
        match self {
            EscrowErrorCode::InvalidMaker => 0,
            EscrowErrorCode::EscrowAlreadyExists => 1,
            EscrowErrorCode::TokenAccountAlreadyExists => 2,
            EscrowErrorCode::PdaMismatch => 3,
            EscrowErrorCode::InvalidTokenOwner => 4,
            EscrowErrorCode::InvalidMakerTokenAccount => 5,
            EscrowErrorCode::InvalidTokenMint => 6,
            EscrowErrorCode::MintMismatch => 7,
            EscrowErrorCode::InvalidEscrowType => 8,
            EscrowErrorCode::InsufficientFunds => 9,
        }
    }

    pub fn code(self) -> (r: u32)
        ensures
            r == self.spec_code(),
    {
        match self {
            EscrowErrorCode::InvalidMaker => 0,
            EscrowErrorCode::EscrowAlreadyExists => 1,
            EscrowErrorCode::TokenAccountAlreadyExists => 2,
            EscrowErrorCode::PdaMismatch => 3,
            EscrowErrorCode::InvalidTokenOwner => 4,
            EscrowErrorCode::InvalidMakerTokenAccount => 5,
            EscrowErrorCode::InvalidTokenMint => 6,
            EscrowErrorCode::MintMismatch => 7,
            EscrowErrorCode::InvalidEscrowType => 8,
            EscrowErrorCode::InsufficientFunds => 9,
        }
    }
}

/// Every way an escrow operation can fail: a protocol code, or one of the
/// host's generic errors.
#[derive(Debug, Clone, Copy, PartialEq, Eq, Structural)]
pub enum EscrowError {
    /// A failure specific to the escrow protocol.
    Escrow(EscrowErrorCode),
    /// An instruction whose bytes do not decode.
    InvalidInstructionData,
    /// An account whose stored bytes do not decode.
    InvalidAccountData,
    /// Seeds from which the host could not derive an address.
    InvalidSeeds,
    /// A computed quantity that does not fit in 64 bits.
    ArithmeticOverflow,
}

} // verus!
