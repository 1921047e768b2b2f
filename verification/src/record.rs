//! The fund record, the identities it names, and the event of a donation.

use vstd::prelude::*;

verus! {

/// Bytes that the host puts in front of a stored record to tell its type.
pub const HEADER_LEN: usize = 8;

/// Bytes of an identity.
pub const IDENTITY_LEN: usize = 32;

/// Bytes of the running total.
pub const TOTAL_LEN: usize = 8;

/// Bytes that a stored fund record takes: the host's header, the authority
/// and the running total.
pub const FUND_SPACE: usize = HEADER_LEN + IDENTITY_LEN + TOTAL_LEN;

/// Who somebody is to the host: the 32 bytes of an account's address.
#[derive(Clone, Copy, Debug, PartialEq, Eq)]
pub struct Identity {
    pub bytes: [u8; IDENTITY_LEN],
}

impl View for Identity {
    type V = Seq<u8>;

    /// The 32 bytes, in order.
    open spec fn view(&self) -> Seq<u8> {
        self.bytes@
    }
}

/// The fund record: who administers the fund and how much it has raised.
///
/// `authority` is written when the record is created and never again.
/// `total_raised` is the sum of the amounts of all donations recorded so far.
#[derive(Clone, Copy, Debug, PartialEq, Eq)]
pub struct EmergencyFund {
    pub authority: Identity,
    pub total_raised: u64,
}

impl EmergencyFund {
    /// The record of a fund that `authority` has just created.
    pub open spec fn created_by(authority: Identity) -> EmergencyFund {
        EmergencyFund { authority, total_raised: 0 }
    }

    /// Whether the running total can take `amount` more without leaving the
    /// 64-bit range.
    pub open spec fn can_record(self, amount: u64) -> bool {
        self.total_raised + amount <= u64::MAX
    }

    /// The record after `amount` more was raised. Meant for amounts that the
    /// total can take, see [`Self::can_record`].
    pub open spec fn credited(self, amount: u64) -> EmergencyFund
        recommends
            self.can_record(amount),
    {
        EmergencyFund {
            authority: self.authority,
            total_raised: (self.total_raised + amount) as u64,
        }
    }
}

/// The notice of one recorded donation, for whoever watches the fund. It is
/// handed out once and not stored.
#[derive(Clone, Copy, Debug, PartialEq, Eq)]
pub struct DonationEvent {
    pub donor: Identity,
    pub amount: u64,
    pub timestamp: i64,
}

} // verus!
