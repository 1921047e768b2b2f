use anchor_lang::solana_program::program_error::ProgramError;
use solana_direct::{
    donate, initialize, record_donation, Donate, DonationEvent, EmergencyFund, FundError,
    Identity, Initialize,
};

fn key(fill: u8) -> Identity {
    Identity { bytes: [fill; 32] }
}

fn fund_with(total_raised: u64) -> Donate {
    Donate {
        fund: EmergencyFund { authority: key(1), total_raised },
        fund_key: key(2),
        donor: key(3),
    }
}

#[test]
fn donations_add_up() {
    let mut ctx = fund_with(0);
    for (amount, now) in [(100u64, 10i64), (250, 20), (1, 30)] {
        assert_eq!(
            record_donation(&mut ctx, amount, Ok(()), Ok(now)),
            Ok(DonationEvent { donor: key(3), amount, timestamp: now })
        );
    }
    assert_eq!(ctx.fund.total_raised, 351);
    assert_eq!(ctx.fund.authority, key(1));
}

#[test]
fn donations_to_a_new_fund_add_up() {
    let mut slot = Initialize { fund: None, authority: key(1) };
    assert_eq!(initialize(&mut slot, Ok(())), Ok(()));
    let mut ctx = Donate { fund: slot.fund.unwrap(), fund_key: key(2), donor: key(3) };
    assert!(record_donation(&mut ctx, 100, Ok(()), Ok(1)).is_ok());
    assert_eq!(ctx.fund.total_raised, 100);
    assert!(record_donation(&mut ctx, 250, Ok(()), Ok(2)).is_ok());
    assert_eq!(ctx.fund.total_raised, 350);
    assert!(record_donation(&mut ctx, 1, Ok(()), Ok(3)).is_ok());
    assert_eq!(ctx.fund.total_raised, 351);
}

#[test]
fn refused_donations_are_not_counted() {
    let mut ctx = fund_with(0);
    assert!(record_donation(&mut ctx, 100, Ok(()), Ok(1)).is_ok());
    assert!(record_donation(&mut ctx, 40, Err(ProgramError::InsufficientFunds), Ok(2)).is_err());
    assert!(record_donation(&mut ctx, 250, Ok(()), Ok(3)).is_ok());
    assert!(record_donation(&mut ctx, 7, Ok(()), Err(ProgramError::UnsupportedSysvar)).is_err());
    assert!(record_donation(&mut ctx, u64::MAX, Ok(()), Ok(4)).is_err());
    assert!(record_donation(&mut ctx, 1, Ok(()), Ok(5)).is_ok());
    assert_eq!(ctx.fund.total_raised, 351);
}

#[test]
fn failed_transfer_changes_nothing() {
    let mut ctx = fund_with(351);
    assert_eq!(
        record_donation(&mut ctx, 40, Err(ProgramError::InsufficientFunds), Ok(9)),
        Err(FundError::TransferFailed(ProgramError::InsufficientFunds))
    );
    assert_eq!(ctx, fund_with(351));
}

#[test]
fn donate_hands_on_a_failed_transfer() {
    let mut ctx = fund_with(351);
    assert_eq!(
        donate(&mut ctx, 40, Err(ProgramError::InsufficientFunds)),
        Err(FundError::TransferFailed(ProgramError::InsufficientFunds))
    );
    assert_eq!(ctx, fund_with(351));
    assert_eq!(
        donate(&mut ctx, 0, Err(ProgramError::Custom(1))),
        Err(FundError::TransferFailed(ProgramError::Custom(1)))
    );
    assert_eq!(ctx, fund_with(351));
}

#[test]
fn donate_without_a_host_clock_changes_nothing() {
    let mut ctx = fund_with(351);
    assert_eq!(
        donate(&mut ctx, 40, Ok(())),
        Err(FundError::ClockUnavailable(ProgramError::UnsupportedSysvar))
    );
    assert_eq!(ctx, fund_with(351));
}

#[test]
fn donate_refuses_overflow_whatever_the_clock_gives() {
    let mut ctx = fund_with(u64::MAX);
    assert_eq!(donate(&mut ctx, 1, Ok(())), Err(FundError::Overflow));
    assert_eq!(ctx, fund_with(u64::MAX));
}

#[test]
fn failed_clock_changes_nothing() {
    let mut ctx = fund_with(351);
    assert_eq!(
        record_donation(&mut ctx, 40, Ok(()), Err(ProgramError::UnsupportedSysvar)),
        Err(FundError::ClockUnavailable(ProgramError::UnsupportedSysvar))
    );
    assert_eq!(ctx, fund_with(351));
}

#[test]
fn event_names_donor_amount_and_time() {
    let mut ctx = Donate {
        fund: EmergencyFund { authority: key(1), total_raised: 10 },
        fund_key: key(2),
        donor: key(9),
    };
    let event = record_donation(&mut ctx, 25, Ok(()), Ok(1_700_000_000)).unwrap();
    assert_eq!(event.donor, key(9));
    assert_eq!(event.amount, 25);
    assert_eq!(event.timestamp, 1_700_000_000);
    assert_eq!(ctx.fund.total_raised, 35);
    assert_eq!(ctx.donor, key(9));
    assert_eq!(ctx.fund_key, key(2));
}

#[test]
fn event_keeps_a_time_before_the_epoch() {
    let mut ctx = fund_with(0);
    let event = record_donation(&mut ctx, 1, Ok(()), Ok(-5)).unwrap();
    assert_eq!(event, DonationEvent { donor: key(3), amount: 1, timestamp: -5 });
}

#[test]
fn authority_and_stranger_donate_alike() {
    let mut by_authority = Donate {
        fund: EmergencyFund { authority: key(1), total_raised: 0 },
        fund_key: key(2),
        donor: key(1),
    };
    let mut by_stranger = Donate {
        fund: EmergencyFund { authority: key(1), total_raised: 0 },
        fund_key: key(2),
        donor: key(8),
    };
    assert_eq!(
        record_donation(&mut by_authority, 5, Ok(()), Ok(1)),
        Ok(DonationEvent { donor: key(1), amount: 5, timestamp: 1 })
    );
    assert_eq!(
        record_donation(&mut by_stranger, 5, Ok(()), Ok(1)),
        Ok(DonationEvent { donor: key(8), amount: 5, timestamp: 1 })
    );
    assert_eq!(by_authority.fund, by_stranger.fund);
    assert_eq!(by_stranger.fund.authority, key(1));
}

#[test]
fn donation_past_the_64_bit_range_is_refused() {
    let mut ctx = fund_with(u64::MAX - 5);
    assert_eq!(record_donation(&mut ctx, 6, Ok(()), Ok(1)), Err(FundError::Overflow));
    assert_eq!(ctx, fund_with(u64::MAX - 5));
    assert_eq!(
        record_donation(&mut ctx, 5, Ok(()), Ok(2)),
        Ok(DonationEvent { donor: key(3), amount: 5, timestamp: 2 })
    );
    assert_eq!(ctx.fund.total_raised, u64::MAX);
    assert_eq!(record_donation(&mut ctx, 1, Ok(()), Ok(3)), Err(FundError::Overflow));
    assert_eq!(record_donation(&mut ctx, u64::MAX, Ok(()), Ok(3)), Err(FundError::Overflow));
    assert_eq!(ctx.fund.total_raised, u64::MAX);
}

#[test]
fn donation_of_nothing_is_recorded() {
    let mut ctx = fund_with(u64::MAX);
    assert_eq!(
        record_donation(&mut ctx, 0, Ok(()), Ok(4)),
        Ok(DonationEvent { donor: key(3), amount: 0, timestamp: 4 })
    );
    assert_eq!(ctx.fund.total_raised, u64::MAX);
}

#[test]
fn failed_transfer_is_reported_before_overflow() {
    let mut ctx = fund_with(u64::MAX);
    assert_eq!(
        record_donation(&mut ctx, 1, Err(ProgramError::InsufficientFunds), Ok(1)),
        Err(FundError::TransferFailed(ProgramError::InsufficientFunds))
    );
}

#[test]
fn overflow_is_reported_before_a_failed_clock() {
    let mut ctx = fund_with(u64::MAX);
    assert_eq!(
        record_donation(&mut ctx, 1, Ok(()), Err(ProgramError::UnsupportedSysvar)),
        Err(FundError::Overflow)
    );
}
