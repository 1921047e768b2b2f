//! The calls into the host's program library. Nothing in this file is proved:
//! each contract here is read off the library's source and taken on trust by
//! everything that calls it.

use crate::instruction::{AccountRef, TransferInstruction};
use crate::record::Identity;
use anchor_lang::prelude::{Clock, SolanaSysvar};
use anchor_lang::solana_program::program_error::ProgramError;
use anchor_lang::solana_program::pubkey::Pubkey;
use anchor_lang::solana_program::system_instruction;
use vstd::prelude::*;

verus! {

/// The host's `ProgramError`, the reason it gives when it refuses something.
/// The fund never looks inside one: it hands it back to the caller as it
/// came.
#[verifier::external_type_specification]
#[verifier::external_body]
pub struct ExProgramError(anchor_lang::solana_program::program_error::ProgramError);

/// Calls `system_instruction::transfer`, which builds the system program's
/// instruction to move `lamports` from `from` to `to`, and copies its three
/// fields out one for one.
///
/// Trusted: that the instruction is addressed to the system program, whose
/// address is 32 zero bytes; that it names `from` as a writable signer and
/// then `to` as writable; and that its payload is the `Transfer { lamports }`
/// variant as bincode writes it with fixed-width little-endian integers, the
/// variant's index 2 in four bytes and then `lamports` in eight.
#[verifier::external_body]
pub(crate) fn system_transfer(
    from: &Identity,
    to: &Identity,
    lamports: u64,
) -> (ix: TransferInstruction)
    ensures
        ix.moves(*from, *to, lamports),
{
    let built = system_instruction::transfer(
        &Pubkey::new_from_array(from.bytes),
        &Pubkey::new_from_array(to.bytes),
        lamports,
    );
    TransferInstruction {
        program_id: Identity { bytes: built.program_id.to_bytes() },
        accounts: built.accounts.iter().map(|meta| AccountRef {
            key: Identity { bytes: meta.pubkey.to_bytes() },
            is_signer: meta.is_signer,
            is_writable: meta.is_writable,
        }).collect(),
        data: built.data,
    }
}

/// Calls `Clock::get`, which asks the host for its clock, and picks the
/// clock's `unix_timestamp`.
///
/// Trusted: nothing. The time is the host's to give, and so is the refusal.
#[verifier::external_body]
pub(crate) fn host_unix_timestamp() -> (clock: Result<i64, ProgramError>) {
    match Clock::get() {
        Ok(clock) => Ok(clock.unix_timestamp),
        Err(reason) => Err(reason),
    }
}

} // verus!
