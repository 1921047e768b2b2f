//! Recording a donation.
//!
//! A donation takes three steps, and the host does the first: it moves the
//! value from the donor to the fund. [`prepare_transfer`] says which transfer
//! to ask for, [`donate`] takes what the host answered, reads the host's clock
//! and records the donation, and [`record_donation`] is that last step alone,
//! with the clock's reading given.
//!
//! A donation that would take the running total past the 64-bit range is
//! refused, before any value is asked to move and again when it is recorded.

use crate::error::FundError;
use crate::host::{host_unix_timestamp, system_transfer};
use crate::instruction::TransferInstruction;
use crate::record::{DonationEvent, EmergencyFund, Identity};
use anchor_lang::solana_program::program_error::ProgramError;
use vstd::prelude::*;

verus! {

/// What a donation works on: the fund record, the address of the account
/// that stores it and holds the fund's balance, and the donor, who signs.
#[derive(Clone, Copy, Debug, PartialEq, Eq)]
pub struct Donate {
    pub fund: EmergencyFund,
    pub fund_key: Identity,
    pub donor: Identity,
}

impl Donate {
    /// What a donation of `amount` answers, given what the host said of the
    /// transfer and what its clock gave. The transfer is looked at first,
    /// then the running total, then the clock. The authority plays no part.
    pub open spec fn outcome(
        self,
        amount: u64,
        transfer: Result<(), ProgramError>,
        clock: Result<i64, ProgramError>,
    ) -> Result<DonationEvent, FundError> {
        match transfer {
            Err(reason) => Err(FundError::TransferFailed(reason)),
            Ok(_) => if !self.fund.can_record(amount) {
                Err(FundError::Overflow)
            } else {
                match clock {
                    Err(reason) => Err(FundError::ClockUnavailable(reason)),
                    Ok(timestamp) => Ok(DonationEvent { donor: self.donor, amount, timestamp }),
                }
            },
        }
    }

    /// What a donation of `amount` leaves behind: the total grown by
    /// `amount` where it succeeds, and everything as it was where it does
    /// not.
    pub open spec fn after(
        self,
        amount: u64,
        transfer: Result<(), ProgramError>,
        clock: Result<i64, ProgramError>,
    ) -> Donate {
        if self.outcome(amount, transfer, clock) is Ok {
            Donate { fund: self.fund.credited(amount), fund_key: self.fund_key, donor: self.donor }
        } else {
            self
        }
    }
}

/// Builds the transfer that a donation of `amount` asks of the host: from
/// the donor, who signs, to the fund's account.
///
/// Refuses, with `Overflow`, exactly when the running total cannot take
/// `amount`, so that no value is asked to move for a donation that could not
/// be recorded.
pub fn prepare_transfer(
    ctx: &Donate,
    amount: u64,
) -> (result: Result<TransferInstruction, FundError>)
    ensures
        result is Ok <==> ctx.fund.can_record(amount),
        result matches Ok(ix) ==> ix.moves(ctx.donor, ctx.fund_key, amount),
        result matches Err(reason) ==> reason == FundError::Overflow,
{
    if amount > u64::MAX - ctx.fund.total_raised {
        return Err(FundError::Overflow);
    }
    Ok(system_transfer(&ctx.donor, &ctx.fund_key, amount))
}

/// Records a donation of `amount`, given what the host said of the transfer
/// and what its clock gave.
///
/// Succeeds exactly when the transfer was carried out, the running total can
/// take `amount`, and the clock gave a time. The total then grows by
/// `amount`, and the one event returned names the donor, the amount and that
/// time. Otherwise the fund is left as it was and no event is returned: a
/// failed transfer is handed on as `TransferFailed`, a total that cannot
/// take the amount is refused as `Overflow`, and a failed clock is handed on
/// as `ClockUnavailable`, in this order. Whether the donor is the fund's
/// authority is not looked at, and the authority is never changed.
pub fn record_donation(
    ctx: &mut Donate,
    amount: u64,
    transfer: Result<(), ProgramError>,
    clock: Result<i64, ProgramError>,
) -> (result: Result<DonationEvent, FundError>)
    ensures
        result == old(ctx).outcome(amount, transfer, clock),
        *final(ctx) == old(ctx).after(amount, transfer, clock),
        result is Ok <==> transfer is Ok && old(ctx).fund.can_record(amount) && clock is Ok,
        result matches Ok(event) ==> event.donor == old(ctx).donor && event.amount == amount
            && clock == Ok::<i64, ProgramError>(event.timestamp),
        result is Ok ==> final(ctx).fund.total_raised == old(ctx).fund.total_raised + amount,
        result is Err ==> *final(ctx) == *old(ctx),
        transfer is Err ==> result is Err && *final(ctx) == *old(ctx),
        final(ctx).fund.authority == old(ctx).fund.authority,
        final(ctx).fund.total_raised >= old(ctx).fund.total_raised,
        final(ctx).fund_key == old(ctx).fund_key,
        final(ctx).donor == old(ctx).donor,
{
    match transfer {
        Err(reason) => Err(FundError::TransferFailed(reason)),
        Ok(()) => {
            if amount > u64::MAX - ctx.fund.total_raised {
                return Err(FundError::Overflow);
            }
            match clock {
                Err(reason) => Err(FundError::ClockUnavailable(reason)),
                Ok(timestamp) => {
                    ctx.fund.total_raised = ctx.fund.total_raised + amount;
                    Ok(DonationEvent { donor: ctx.donor, amount, timestamp })
                },
            }
        },
    }
}

/// Records a donation of `amount`, given what the host said of the
/// transfer. The time of the event is read from the host's clock, once the
/// transfer is known to have been carried out.
///
/// A failed transfer is handed on as `TransferFailed`, and a total that
/// cannot take the amount is refused as `Overflow`; in both cases the fund
/// is left as it was. Otherwise the clock decides: the result and the fund
/// are those of [`record_donation`] for what the clock gave, whatever that
/// was.
///
/// Where a donation is refused after the host has carried out the transfer,
/// the value has moved and the fund has not counted it. It is for the host
/// to undo the transfer then, as it does for an invocation that ends in an
/// error.
pub fn donate(
    ctx: &mut Donate,
    amount: u64,
    transfer: Result<(), ProgramError>,
) -> (result: Result<DonationEvent, FundError>)
    ensures
        exists|clock: Result<i64, ProgramError>|
            result == #[trigger] old(ctx).outcome(amount, transfer, clock)
                && *final(ctx) == old(ctx).after(amount, transfer, clock),
        transfer matches Err(reason) ==> result == Err::<DonationEvent, FundError>(
            FundError::TransferFailed(reason),
        ),
        transfer is Ok && !old(ctx).fund.can_record(amount) ==> result == Err::<
            DonationEvent,
            FundError,
        >(FundError::Overflow),
        transfer is Ok && old(ctx).fund.can_record(amount) ==> result is Ok
            || result matches Err(FundError::ClockUnavailable(_)),
        result is Ok ==> transfer is Ok && old(ctx).fund.can_record(amount),
        result matches Ok(event) ==> event.donor == old(ctx).donor && event.amount == amount,
        result is Ok ==> final(ctx).fund.total_raised == old(ctx).fund.total_raised + amount,
        result is Err ==> *final(ctx) == *old(ctx),
        transfer is Err ==> result is Err && *final(ctx) == *old(ctx),
        final(ctx).fund.authority == old(ctx).fund.authority,
        final(ctx).fund.total_raised >= old(ctx).fund.total_raised,
        final(ctx).fund_key == old(ctx).fund_key,
        final(ctx).donor == old(ctx).donor,
{
    match transfer {
        Err(reason) => {
            let refused = Err(FundError::TransferFailed(reason));
            proof {
                // The clock was not read: whatever it holds, the answer is this one.
                let unread = Ok::<i64, ProgramError>(0i64);
                assert(refused == old(ctx).outcome(amount, transfer, unread));
            }
            refused
        },
        Ok(carried_out) => {
            let clock = host_unix_timestamp();
            record_donation(ctx, amount, Ok(carried_out), clock)
        },
    }
}

} // verus!
