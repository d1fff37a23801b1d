//! The plain values of the ledger: the two storage slots, a tip, the
//! notification of a tip, and the ways a tip is refused.

use soroban_sdk::Address;
use vstd::prelude::*;

verus! {

/// The two slots of instance storage that hold the ledger. Each is absent
/// until the first tip is recorded.
#[derive(Clone, Copy, Debug, PartialEq, Eq)]
pub enum DataKey {
    /// The running total of every payer.
    Leaderboard,
    /// Every tip, in the order in which it was recorded.
    TipHistory,
}

/// One payment with its message. A tip is made when it is recorded and is
/// never changed or dropped afterwards.
#[derive(Debug, PartialEq, Eq)]
pub struct Tip {
    pub from: Address,
    pub amount: i128,
    pub message: soroban_sdk::String,
}

impl Tip {
    /// The tip that a row of the stored history stands for.
    pub fn from_row(row: (Address, i128, soroban_sdk::String)) -> (tip: Tip)
        ensures
            tip == (Tip { from: row.0, amount: row.1, message: row.2 }),
    {
        Tip { from: row.0, amount: row.1, message: row.2 }
    }

    /// The row that stands for the tip in the stored history.
    pub fn into_row(self) -> (row: (Address, i128, soroban_sdk::String))
        ensures
            row == (self.from, self.amount, self.message),
    {
        (self.from, self.amount, self.message)
    }
}

/// What is published when a tip has been recorded. The message stays in the
/// ledger and is not part of it.
#[derive(Debug, PartialEq, Eq)]
pub struct CoffeeEvent {
    pub from: Address,
    pub amount: i128,
}

/// Why a tip was not recorded.
#[derive(Clone, Copy, Debug, PartialEq, Eq)]
pub enum TipError {
    /// The host has not authorized the invocation for the payer.
    Authorization,
    /// The amount is zero or negative.
    InvalidAmount,
}

impl TipError {
    /// The text that names the broken rule.
    pub open spec fn text(self) -> Seq<char> {
        match self {
            TipError::Authorization => "invocation is not authorized by the payer"@,
            TipError::InvalidAmount => "amount must be greater than zero"@,
        }
    }

    /// The text that names the broken rule, for the caller that aborts with it.
    pub fn message(&self) -> (text: &'static str)
        ensures
            text@ == self.text(),
    {
        match self {
            TipError::Authorization => "invocation is not authorized by the payer",
            TipError::InvalidAmount => "amount must be greater than zero",
        }
    }
}

} // verus!
