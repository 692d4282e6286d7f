//! A two-party escrow: a maker locks asset A in a vault at a derived address
//! and states the terms; a taker meets them and the swap settles.
//!
//! The library holds the escrow's rules as verified functions on plain
//! values: the record layout, the instruction codecs, the Dutch-auction
//! price, the address check and the two handlers, which turn what the host
//! reports about the accounts into the effects the host must carry out.
use vstd::prelude::*;

mod bytes;
pub mod error;
pub mod instructions;
pub mod states;

verus! {

/// The program's address, in base58.
pub const PROGRAM_ID_TEXT: &'static str = "N9BuK6SmDXHr2jpca1C4WzMhok2wki8sx2osK1sTobc";

/// The 32 bytes that `pinocchio_pubkey::from_str` decodes from base58 text.
pub uninterp spec fn pubkey_from_base58(text: Seq<char>) -> [u8; 32];

/// Relies on pinocchio_pubkey::from_str: it decodes a base58 key and
/// depends on the text alone. It panics on text that is not a 32-byte key,
/// so it is only handed the program's own address.
#[verifier::external_body]
fn decode_pubkey(text: &str) -> (r: [u8; 32])
    requires
        text@ == PROGRAM_ID_TEXT@,
    ensures
        r == pubkey_from_base58(text@),
{
    pinocchio_pubkey::from_str(text)
}

/// The program's address as bytes.
pub open spec fn spec_program_id() -> [u8; 32] {
    pubkey_from_base58(PROGRAM_ID_TEXT@)
}

pub fn program_id() -> (r: [u8; 32])
    ensures
        r == spec_program_id(),
{
    decode_pubkey(PROGRAM_ID_TEXT)
}

} // verus!
