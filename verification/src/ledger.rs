//! The ledger as it travels between instance storage and the operations: the
//! two aggregates, each of them absent until it is first written.

use crate::book::Book;
use crate::host::{
    board_get, board_len, board_totals, board_typed, history_len, history_tips, Board, History,
};
use crate::types::{DataKey, Tip};
use soroban_sdk::Address;
use vstd::prelude::*;

verus! {

/// The totals that a leaderboard slot stands for: none while it is absent.
pub open spec fn totals_in(slot: Option<Board>) -> Map<Address, i128> {
    match slot {
        Some(board) => board_totals(board),
        None => Map::empty(),
    }
}

/// The tips that a history slot stands for: none while it is absent.
pub open spec fn tips_in(slot: Option<History>) -> Seq<Tip> {
    match slot {
        Some(history) => history_tips(history),
        None => Seq::empty(),
    }
}

/// Whether a leaderboard slot can be read: absent, or a map of addresses to
/// 128-bit integers and nothing else.
pub open spec fn readable(slot: Option<Board>) -> bool {
    match slot {
        Some(board) => board_typed(board),
        None => true,
    }
}

/// What instance storage holds of the ledger.
pub struct Ledger {
    pub(crate) board: Option<Board>,
    pub(crate) history: Option<History>,
}

impl View for Ledger {
    type V = Book;

    open(crate) spec fn view(&self) -> Book {
        Book { totals: totals_in(self.board), tips: tips_in(self.history) }
    }
}

impl Ledger {
    #[verifier::type_invariant]
    pub(crate) open spec fn sound(self) -> bool {
        readable(self.board)
    }

    /// Whether the slot of `key` has been written.
    pub open(crate) spec fn present(self, key: DataKey) -> bool {
        match key {
            DataKey::Leaderboard => self.board is Some,
            DataKey::TipHistory => self.history is Some,
        }
    }

    /// The ledger of an instance that has never recorded a tip.
    pub fn new() -> (ledger: Ledger)
        ensures
            ledger@ == Book::fresh(),
            ledger@.consistent(),
            !ledger.present(DataKey::Leaderboard),
            !ledger.present(DataKey::TipHistory),
    {
        Ledger { board: None, history: None }
    }

    /// The ledger that the two slots of instance storage hold, each `None`
    /// where nothing is stored under its key. The leaderboard is one that this
    /// library wrote, which instance storage gives back unchanged.
    pub fn restore(board: Option<Board>, history: Option<History>) -> (ledger: Ledger)
        requires
            readable(board),
        ensures
            ledger@ == (Book { totals: totals_in(board), tips: tips_in(history) }),
            ledger.present(DataKey::Leaderboard) == (board is Some),
            ledger.present(DataKey::TipHistory) == (history is Some),
    {
        Ledger { board, history }
    }

    /// The two slots, to be written back under `DataKey::Leaderboard` and
    /// `DataKey::TipHistory`: `None` for a slot that was never written.
    pub fn into_parts(self) -> (parts: (Option<Board>, Option<History>))
        ensures
            readable(parts.0),
            totals_in(parts.0) == self@.totals,
            tips_in(parts.1) == self@.tips,
            (parts.0 is Some) == self.present(DataKey::Leaderboard),
            (parts.1 is Some) == self.present(DataKey::TipHistory),
    {
        proof {
            use_type_invariant(&self);
        }
        (self.board, self.history)
    }

    /// Whether a tip of `amount` from `from` stays within the limits of the
    /// machine, so that it can be recorded.
    pub fn has_room(&self, from: &Address, amount: i128) -> (room: bool)
        ensures
            room == self@.admits(*from, amount),
    {
        proof {
            use_type_invariant(self);
        }
        let history_fits = match &self.history {
            Some(history) => history_len(history) < u32::MAX,
            None => true,
        };
        match &self.board {
            Some(board) => match board_get(board, from) {
                Some(total) => total.checked_add(amount).is_some() && history_fits,
                None => board_len(board) < u32::MAX && history_fits,
            },
            None => history_fits,
        }
    }

    /// Whether the slot of `key` has been written.
    pub fn holds(&self, key: DataKey) -> (held: bool)
        ensures
            held == self.present(key),
    {
        match key {
            DataKey::Leaderboard => self.board.is_some(),
            DataKey::TipHistory => self.history.is_some(),
        }
    }
}

} // verus!
