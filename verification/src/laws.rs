//! What holds of the fund over more than one call.
//!
//! The operations are spoken of here by what their contracts say they
//! answer and leave behind: [`Initialize::outcome`] and [`Initialize::after`],
//! [`Donate::outcome`] and [`Donate::after`].

use crate::creation::Initialize;
use crate::donation::Donate;
use crate::error::FundError;
use crate::record::{DonationEvent, EmergencyFund, Identity};
use anchor_lang::solana_program::program_error::ProgramError;
use vstd::prelude::*;

verus! {

/// One donation as the fund meets it: the amount, what the host said of the
/// transfer, and what its clock gave.
pub struct DonateCall {
    pub amount: u64,
    pub transfer: Result<(), ProgramError>,
    pub clock: Result<i64, ProgramError>,
}

/// What `call` answers when it meets the fund in the state `ctx`.
pub open spec fn answer(ctx: Donate, call: DonateCall) -> Result<DonationEvent, FundError> {
    ctx.outcome(call.amount, call.transfer, call.clock)
}

/// The state after the donations `calls` were made one after the other,
/// starting from `start`.
pub open spec fn replay(start: Donate, calls: Seq<DonateCall>) -> Donate
    decreases calls.len(),
{
    if calls.len() == 0 {
        start
    } else {
        let last = calls.last();
        replay(start, calls.drop_last()).after(last.amount, last.transfer, last.clock)
    }
}

/// Whether each of the donations `calls`, made one after the other starting
/// from `start`, succeeds.
pub open spec fn all_succeed(start: Donate, calls: Seq<DonateCall>) -> bool
    decreases calls.len(),
{
    calls.len() == 0 || {
        &&& all_succeed(start, calls.drop_last())
        &&& answer(replay(start, calls.drop_last()), calls.last()) is Ok
    }
}

/// The sum of the amounts of `calls`.
pub open spec fn sum_of_amounts(calls: Seq<DonateCall>) -> int
    decreases calls.len(),
{
    if calls.len() == 0 {
        0
    } else {
        sum_of_amounts(calls.drop_last()) + calls.last().amount
    }
}

/// The sum of the amounts of those of `calls` that succeed, when they are
/// made one after the other starting from `start`.
pub open spec fn sum_of_recorded(start: Donate, calls: Seq<DonateCall>) -> int
    decreases calls.len(),
{
    if calls.len() == 0 {
        0
    } else {
        sum_of_recorded(start, calls.drop_last()) + if answer(
            replay(start, calls.drop_last()),
            calls.last(),
        ) is Ok {
            calls.last().amount as int
        } else {
            0
        }
    }
}

/// A fund is created once: when a slot holds a record after one call of
/// `initialize`, a second call on that slot, by whatever authority and
/// whatever the host says of the allocation, is refused as
/// `AlreadyInitialized` and leaves the record as the first call left it.
///
/// The slot holds a record after the first call unless it was empty and the
/// host refused to allocate it.
pub proof fn lemma_created_once(
    slot: Initialize,
    first: Result<(), ProgramError>,
    second_authority: Identity,
    second: Result<(), ProgramError>,
)
    requires
        slot.fund is Some || first is Ok,
    ensures
        slot.fund is None ==> slot.outcome(first) is Ok && slot.after(first).fund == Some(
            EmergencyFund::created_by(slot.authority),
        ),
        ({
            let once = slot.after(first);
            let again = Initialize { fund: once.fund, authority: second_authority };
            &&& again.outcome(second) == Err::<(), FundError>(FundError::AlreadyInitialized)
            &&& again.after(second).fund == once.fund
        }),
{
}

/// The running total counts what was recorded: after any donations, made
/// one after the other, the total has grown by the sum of the amounts of
/// those that succeeded, and by nothing else. It never shrinks, and the
/// authority, the fund's address and the donor stay as they were.
pub proof fn lemma_total_counts_recorded(start: Donate, calls: Seq<DonateCall>)
    ensures
        replay(start, calls).fund.total_raised == start.fund.total_raised + sum_of_recorded(
            start,
            calls,
        ),
        0 <= sum_of_recorded(start, calls) <= sum_of_amounts(calls),
        replay(start, calls).fund.total_raised >= start.fund.total_raised,
        replay(start, calls).fund.authority == start.fund.authority,
        replay(start, calls).fund_key == start.fund_key,
        replay(start, calls).donor == start.donor,
    decreases calls.len(),
{
    if calls.len() > 0 {
        lemma_total_counts_recorded(start, calls.drop_last());
    }
}

/// Conservation: after donations that all succeed, made one after the
/// other, the running total has grown by exactly the sum of their amounts.
/// For a fund that had raised nothing, the total is that sum.
pub proof fn lemma_conservation(start: Donate, calls: Seq<DonateCall>)
    requires
        all_succeed(start, calls),
    ensures
        replay(start, calls).fund.total_raised == start.fund.total_raised + sum_of_amounts(calls),
        start.fund.total_raised == 0 ==> replay(start, calls).fund.total_raised == sum_of_amounts(
            calls,
        ),
    decreases calls.len(),
{
    if calls.len() > 0 {
        lemma_conservation(start, calls.drop_last());
    }
}

/// No authorization gate: whether a donation succeeds depends on the
/// transfer, the running total and the clock alone. It succeeds for a donor
/// who is the fund's authority and for one who is not, and it leaves the
/// same record behind for either.
pub proof fn lemma_any_signer_may_donate(
    ctx: Donate,
    donor: Identity,
    authority: Identity,
    amount: u64,
    transfer: Result<(), ProgramError>,
    clock: Result<i64, ProgramError>,
)
    ensures
        ctx.outcome(amount, transfer, clock) is Ok <==> transfer is Ok && ctx.fund.can_record(
            amount,
        ) && clock is Ok,
        ({
            let by_donor = Donate { fund: ctx.fund, fund_key: ctx.fund_key, donor };
            &&& by_donor.outcome(amount, transfer, clock) is Ok <==> ctx.outcome(
                amount,
                transfer,
                clock,
            ) is Ok
            &&& by_donor.after(amount, transfer, clock).fund == ctx.after(
                amount,
                transfer,
                clock,
            ).fund
        }),
        ({
            let under_authority = Donate {
                fund: EmergencyFund { authority, total_raised: ctx.fund.total_raised },
                fund_key: ctx.fund_key,
                donor: ctx.donor,
            };
            &&& under_authority.outcome(amount, transfer, clock) == ctx.outcome(
                amount,
                transfer,
                clock,
            )
            &&& under_authority.after(amount, transfer, clock).fund.total_raised == ctx.after(
                amount,
                transfer,
                clock,
            ).fund.total_raised
        }),
{
}

/// A donation whose transfer could be prepared is not refused for the
/// total's sake afterwards: when the running total can take `amount`, which
/// is when `prepare_transfer` builds the transfer, the donation succeeds
/// exactly when the host carried out the transfer and its clock gave a time.
pub proof fn lemma_prepared_donation_rests_on_host(
    ctx: Donate,
    amount: u64,
    transfer: Result<(), ProgramError>,
    clock: Result<i64, ProgramError>,
)
    requires
        ctx.fund.can_record(amount),
    ensures
        ctx.outcome(amount, transfer, clock) is Ok <==> transfer is Ok && clock is Ok,
        ctx.outcome(amount, transfer, clock) != Err::<DonationEvent, FundError>(
            FundError::Overflow,
        ),
{
}

} // verus!
