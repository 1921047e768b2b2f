//! A donation fund: one shared record that counts what was given to it.
//!
//! The fund is created once, bound to an authority, and from then on only
//! grows: every donation that the host's value transfer carried out is added to
//! the running total and announced by one event. The host moves the value and
//! keeps the accounts; this crate decides what each operation does to the
//! record, and proves it.
//!
//! * [`record`]: the stored record, the identities in it, and the event.
//! * [`error`]: why an operation was refused.
//! * [`instruction`]: the transfer that a donation asks of the host.
//! * [`host`]: the calls into the host's program library, taken on trust.
//! * [`creation`]: the operation that creates the record.
//! * [`donation`]: the operation that records a donation.
//! * [`laws`]: what holds over several calls.

pub mod creation;
pub mod donation;
pub mod error;
pub mod host;
pub mod instruction;
pub mod laws;
pub mod record;

pub use creation::{initialize, Initialize};
pub use donation::{donate, prepare_transfer, record_donation, Donate};
pub use error::FundError;
pub use instruction::{AccountRef, TransferInstruction};
pub use record::{DonationEvent, EmergencyFund, Identity, FUND_SPACE};
