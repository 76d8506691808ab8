use vstd::prelude::*;
use anchor_lang::solana_program::program_error::ProgramError;

verus! {

#[verifier::external_type_specification]
#[verifier::external_body]
pub struct ExProgramError(ProgramError);

/// Relies on `Clock::get` of the Solana runtime (reached through anchor_lang):
/// the `unix_timestamp` of the current slot, or the runtime's error when the
/// clock sysvar cannot be read. Nothing is promised of the value.
#[verifier::external_body]
pub(crate) fn clock_unix_timestamp() -> (r: Result<i64, ProgramError>) {
    <anchor_lang::solana_program::sysvar::clock::Clock as anchor_lang::solana_program::sysvar::Sysvar>::get().map(|c| c.unix_timestamp)
}

} // verus!
