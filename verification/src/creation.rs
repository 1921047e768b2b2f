//! Creating the fund record.

use crate::error::FundError;
use crate::record::{EmergencyFund, Identity};
use anchor_lang::solana_program::program_error::ProgramError;
use vstd::prelude::*;

verus! {

/// What creating the fund works on: the storage slot that is to hold the
/// record, empty until it does, and the identity that signs for the fund
/// and becomes its authority.
#[derive(Clone, Copy, Debug, PartialEq, Eq)]
pub struct Initialize {
    pub fund: Option<EmergencyFund>,
    pub authority: Identity,
}

impl Initialize {
    /// What [`initialize`] answers, given what the host said of allocating
    /// the slot. A slot that is taken is refused whatever the host said.
    pub open spec fn outcome(
        self,
        allocation: Result<(), ProgramError>,
    ) -> Result<(), FundError> {
        match (self.fund, allocation) {
            (Some(_), _) => Err(FundError::AlreadyInitialized),
            (None, Err(reason)) => Err(FundError::AllocationFailed(reason)),
            (None, Ok(_)) => Ok(()),
        }
    }

    /// What [`initialize`] leaves behind: the new record in the slot where
    /// it succeeds, and everything as it was where it does not.
    pub open spec fn after(self, allocation: Result<(), ProgramError>) -> Initialize {
        if self.outcome(allocation) is Ok {
            Initialize {
                fund: Some(EmergencyFund::created_by(self.authority)),
                authority: self.authority,
            }
        } else {
            self
        }
    }
}

/// Creates the fund record in the slot of `ctx`, with the signing identity
/// as its authority and nothing raised yet. `allocation` is what the host
/// said when it was asked to allocate and fund the slot.
///
/// Succeeds exactly when the slot is empty and the host allocated it. A slot
/// that already holds a record is refused as `AlreadyInitialized` and keeps
/// its record; a refusal of the host is handed on as `AllocationFailed`.
/// Creating the record moves no value and announces nothing.
pub fn initialize(
    ctx: &mut Initialize,
    allocation: Result<(), ProgramError>,
) -> (result: Result<(), FundError>)
    ensures
        result == old(ctx).outcome(allocation),
        *final(ctx) == old(ctx).after(allocation),
        result is Ok <==> old(ctx).fund is None && allocation is Ok,
        result is Ok ==> final(ctx).fund == Some(EmergencyFund::created_by(old(ctx).authority)),
        result is Err ==> *final(ctx) == *old(ctx),
        old(ctx).fund is Some ==> result == Err::<(), FundError>(FundError::AlreadyInitialized),
        final(ctx).authority == old(ctx).authority,
{
    if ctx.fund.is_some() {
        return Err(FundError::AlreadyInitialized);
    }
    match allocation {
        Err(reason) => Err(FundError::AllocationFailed(reason)),
        Ok(()) => {
            ctx.fund = Some(EmergencyFund { authority: ctx.authority, total_raised: 0 });
            Ok(())
        },
    }
}

} // verus!
