use vstd::prelude::*;

use anchor_lang::solana_program::program_error::ProgramError;
use anchor_lang::solana_program::sysvar::clock::Clock;
use anchor_lang::solana_program::sysvar::Sysvar;

verus! {

/// Calls `Clock::get` of `solana_program`'s sysvars and hands out the
/// `unix_timestamp` of the clock it returns.
///
/// Nothing is claimed of the result: the time is what the runtime says, and
/// where there is no runtime the call fails.
#[verifier::external_body]
fn read_clock() -> (r: Result<i64, ProgramError>) {
    match Clock::get() {
        Ok(clock) => Ok(clock.unix_timestamp),
        Err(error) => Err(error),
    }
}

/// The time of the ledger, in seconds, or `None` where the ledger's clock
/// cannot be read.
pub(crate) fn ledger_time() -> (r: Option<i64>) {
    match read_clock() {
        Ok(now) => Some(now),
        Err(_) => None,
    }
}

} // verus!
