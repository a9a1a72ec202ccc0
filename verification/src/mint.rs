use vstd::prelude::*;

use spl_token::solana_program::program_error::ProgramError;
use spl_token::solana_program::program_pack::Pack;
use spl_token::state::Mint;

use crate::error::IcoError;

verus! {

/// Number of bytes in a mint record.
pub const MINT_LEN: usize = 82;

/// Where a mint record keeps the mark of its optional mint authority.
pub const MINT_AUTHORITY_AT: usize = 0;

/// Where a mint record keeps the token's decimal places.
pub const MINT_DECIMALS_AT: usize = 44;

/// Where a mint record keeps the byte that tells whether it is initialized.
pub const MINT_INITIALIZED_AT: usize = 45;

/// Where a mint record keeps the mark of its optional freeze authority.
pub const MINT_FREEZE_AUTHORITY_AT: usize = 46;

/// `solana_program::program_error::ProgramError`, the error with which
/// `spl_token::state::Mint::unpack` fails.  It is carried through; nothing
/// is read from it.
#[verifier::external_type_specification]
#[verifier::external_body]
pub struct ExProgramError(ProgramError);

/// Whether the four bytes of `data` from `at` on mark an optional key as
/// absent (0, 0, 0, 0) or present (1, 0, 0, 0).
pub open spec fn key_mark_valid(data: Seq<u8>, at: int) -> bool {
    &&& data[at] == 0 || data[at] == 1
    &&& data[at + 1] == 0
    &&& data[at + 2] == 0
    &&& data[at + 3] == 0
}

/// Whether `data` is the record of an initialized mint: 82 bytes, of which
/// the first 36 hold the optional mint authority behind its mark, the next 8
/// the supply, byte 44 the decimal places, byte 45 the value 1, and the last
/// 36 the optional freeze authority behind its mark.
pub open spec fn is_initialized_mint(data: Seq<u8>) -> bool {
    &&& data.len() == MINT_LEN
    &&& key_mark_valid(data, MINT_AUTHORITY_AT as int)
    &&& data[MINT_INITIALIZED_AT as int] == 1
    &&& key_mark_valid(data, MINT_FREEZE_AUTHORITY_AT as int)
}

/// Calls `spl_token::state::Mint::unpack` on `data` and hands out the
/// `decimals` of the mint it returns.
///
/// Trusted: that `unpack` succeeds exactly on the records of initialized
/// mints as `is_initialized_mint` describes them, and that the mint it
/// returns then has the byte at `MINT_DECIMALS_AT` as its `decimals`.
#[verifier::external_body]
fn unpack_mint_decimals(data: &[u8]) -> (r: Result<u8, ProgramError>)
    ensures
        r is Ok <==> is_initialized_mint(data@),
        r matches Ok(decimals) ==> decimals == data@[MINT_DECIMALS_AT as int],
{
    match Mint::unpack(data) {
        Ok(mint) => Ok(mint.decimals),
        Err(error) => Err(error),
    }
}

/// The decimal places that the mint record `data` declares, if `data` is
/// the record of an initialized mint.
pub open spec fn declared_decimals(data: Seq<u8>) -> Result<u8, IcoError> {
    if is_initialized_mint(data) {
        Ok(data[MINT_DECIMALS_AT as int])
    } else {
        Err(IcoError::InvalidMint)
    }
}

/// Reads the decimal places of a token from its mint record.  Bytes that
/// are not the record of an initialized mint are refused with `InvalidMint`.
pub fn mint_decimals(data: &[u8]) -> (r: Result<u8, IcoError>)
    ensures
        r == declared_decimals(data@),
{
    match unpack_mint_decimals(data) {
        Ok(decimals) => Ok(decimals),
        Err(_) => Err(IcoError::InvalidMint),
    }
}

} // verus!
