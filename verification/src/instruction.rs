//! The transfer of value that a donation asks of the host, as plain data.

use crate::record::Identity;
use vstd::prelude::*;

verus! {

/// One account that an instruction touches, and what it may do to it.
#[derive(Clone, Copy, Debug, PartialEq, Eq)]
pub struct AccountRef {
    pub key: Identity,
    pub is_signer: bool,
    pub is_writable: bool,
}

/// An instruction for the host's system program that moves value from one
/// account to another: the program it is for, the accounts it touches, and
/// the payload that the program reads.
#[derive(Debug, PartialEq, Eq)]
pub struct TransferInstruction {
    pub program_id: Identity,
    pub accounts: Vec<AccountRef>,
    pub data: Vec<u8>,
}

/// The address of the host's system program: 32 zero bytes, which the host
/// writes in base 58 as the digit `1` 32 times.
pub open spec fn system_program_id() -> Seq<u8> {
    Seq::new(32, |i: int| 0u8)
}

/// The eight bytes of `x`, the least significant first.
pub open spec fn le_bytes(x: u64) -> Seq<u8> {
    seq![
        (x % 0x100) as u8,
        (x / 0x100 % 0x100) as u8,
        (x / 0x1_0000 % 0x100) as u8,
        (x / 0x100_0000 % 0x100) as u8,
        (x / 0x1_0000_0000 % 0x100) as u8,
        (x / 0x100_0000_0000 % 0x100) as u8,
        (x / 0x1_0000_0000_0000 % 0x100) as u8,
        (x / 0x100_0000_0000_0000 % 0x100) as u8,
    ]
}

/// The payload of a transfer of `lamports`: the number 2, by which the
/// system program knows a transfer, in four bytes, then the amount in
/// eight, each the least significant byte first.
pub open spec fn transfer_payload(lamports: u64) -> Seq<u8> {
    seq![2u8, 0u8, 0u8, 0u8] + le_bytes(lamports)
}

/// The account that pays in a transfer: it signs and is written to.
pub open spec fn payer(key: Identity) -> AccountRef {
    AccountRef { key, is_signer: true, is_writable: true }
}

/// The account that receives in a transfer: it is written to and need not
/// sign.
pub open spec fn payee(key: Identity) -> AccountRef {
    AccountRef { key, is_signer: false, is_writable: true }
}

impl TransferInstruction {
    /// Whether this is the system program's transfer of `lamports` from the
    /// account `from` to the account `to`.
    pub open spec fn moves(&self, from: Identity, to: Identity, lamports: u64) -> bool {
        &&& self.program_id@ == system_program_id()
        &&& self.accounts@ == seq![payer(from), payee(to)]
        &&& self.data@ == transfer_payload(lamports)
    }
}

} // verus!
