//! Why an operation on the fund was refused.

use anchor_lang::solana_program::program_error::ProgramError;
use vstd::prelude::*;

verus! {

/// The reason an operation was refused. A refused operation leaves the fund
/// as it was. Where the host gave the reason, its own error is kept as it
/// came.
#[derive(Debug, PartialEq, Eq)]
pub enum FundError {
    /// The storage slot already holds a fund record.
    AlreadyInitialized,
    /// The host could not allocate or fund the storage slot.
    AllocationFailed(ProgramError),
    /// The host did not carry out the transfer of value.
    TransferFailed(ProgramError),
    /// The host's clock gave no time.
    ClockUnavailable(ProgramError),
    /// The running total cannot take the amount: the sum would leave the
    /// 64-bit range.
    Overflow,
}

} // verus!
