//! The four operations of the ledger: one that records a tip and three that
//! read.
//!
//! The host stands at the edge. The caller asks the host whether the payer has
//! authorized the invocation, reads the ledger from instance storage, and after
//! a recorded tip writes the ledger back and publishes the event. The host
//! undoes the writes of an invocation that aborts, so a caller that aborts on an
//! error leaves storage as it was.

use crate::book::Call;
use crate::host::{
    board_copy, board_get, board_new, board_set, board_totals, board_typed, history_copy,
    history_new, history_push, history_tips, Board, History,
};
use crate::laws::step_keeps_consistent;
use crate::ledger::Ledger;
use crate::types::{CoffeeEvent, DataKey, Tip, TipError};
use soroban_sdk::{Address, Env};
use vstd::prelude::*;

verus! {

/// The account that the tips are meant for, as a Stellar strkey. No operation
/// reads it: the ledger records tips and moves no funds.
pub const CREATOR_ADDRESS: &'static str = "GC6QXTLS3XSA3GJPHODE2ZSCQS2LFAOANOZKUFLKBJNXCRVYV6NJB3RI";

/// The operations of the ledger.
pub struct Contract;

impl Contract {
    /// Records a tip of `amount` from `from`, with its message.
    ///
    /// `authorized` is what the host said of the invocation and the payer. A
    /// call that is not authorized is refused first, then one whose amount is
    /// not above zero; a refused call leaves the ledger as it was. Any other
    /// call adds the amount to the payer's total, appends the tip to the
    /// history, and returns the event to publish. Both aggregates change in
    /// the one call, or neither does.
    ///
    /// An accepted tip has to stay within the limits of the machine, which
    /// `Ledger::has_room` tests; `try_buy_coffee` makes that test itself.
    pub fn buy_coffee(
        env: &Env,
        ledger: &mut Ledger,
        authorized: bool,
        from: Address,
        amount: i128,
        message: soroban_sdk::String,
    ) -> (outcome: Result<CoffeeEvent, TipError>)
        requires
            authorized && amount > 0 ==> old(ledger)@.admits(from, amount),
        ensures
            outcome == (Call { authorized, from, amount, message }).outcome(),
            final(ledger)@ == old(ledger)@.step((Call { authorized, from, amount, message })),
            outcome is Err ==> *final(ledger) == *old(ledger),
            outcome is Ok ==> final(ledger).present(DataKey::Leaderboard),
            outcome is Ok ==> final(ledger).present(DataKey::TipHistory),
            old(ledger)@.consistent() ==> final(ledger)@.consistent(),
    {
        proof {
            if old(ledger)@.consistent() {
                step_keeps_consistent(old(ledger)@, Call { authorized, from, amount, message });
            }
        }
        if !authorized {
            return Err(TipError::Authorization);
        }
        if amount <= 0 {
            return Err(TipError::InvalidAmount);
        }
        proof {
            use_type_invariant(&*ledger);
        }
        let mut board = match &ledger.board {
            Some(board) => board_copy(board),
            None => board_new(env),
        };
        let current = board_get(&board, &from).unwrap_or(0);
        board_set(&mut board, &from, current + amount);

        let mut history = match &ledger.history {
            Some(history) => history_copy(history),
            None => history_new(env),
        };
        let tip = Tip { from, amount, message };
        history_push(&mut history, &tip);

        ledger.board = Some(board);
        ledger.history = Some(history);
        Ok(CoffeeEvent { from: tip.from, amount })
    }

    /// Records a tip as `buy_coffee` does, for a caller that cannot know
    /// whether the ledger has room for it: where an accepted tip would leave
    /// the limits of the machine, nothing is recorded and `None` is returned.
    pub fn try_buy_coffee(
        env: &Env,
        ledger: &mut Ledger,
        authorized: bool,
        from: Address,
        amount: i128,
        message: soroban_sdk::String,
    ) -> (outcome: Option<Result<CoffeeEvent, TipError>>)
        ensures
            outcome is None <==> authorized && amount > 0 && !old(ledger)@.admits(from, amount),
            outcome is None ==> *final(ledger) == *old(ledger),
            outcome is Some ==> outcome == Some(
                (Call { authorized, from, amount, message }).outcome(),
            ),
            outcome is Some ==> final(ledger)@ == old(ledger)@.step(
                (Call { authorized, from, amount, message }),
            ),
            outcome matches Some(Err(_)) ==> *final(ledger) == *old(ledger),
            outcome matches Some(Ok(_)) ==> final(ledger).present(DataKey::Leaderboard),
            outcome matches Some(Ok(_)) ==> final(ledger).present(DataKey::TipHistory),
            old(ledger)@.consistent() ==> final(ledger)@.consistent(),
    {
        if authorized && amount > 0 && !ledger.has_room(&from, amount) {
            return None;
        }
        Some(Contract::buy_coffee(env, ledger, authorized, from, amount, message))
    }

    /// The total that `user` has tipped: zero for an address that never did.
    pub fn total_donated(ledger: &Ledger, user: Address) -> (total: i128)
        ensures
            total == ledger@.total_of(user),
    {
        proof {
            use_type_invariant(ledger);
        }
        match &ledger.board {
            Some(board) => board_get(board, &user).unwrap_or(0),
            None => 0,
        }
    }

    /// The whole leaderboard: an empty map before the first tip.
    pub fn leaderboard(env: &Env, ledger: &Ledger) -> (board: Board)
        ensures
            board_typed(board),
            board_totals(board) == ledger@.totals,
    {
        proof {
            use_type_invariant(ledger);
        }
        match &ledger.board {
            Some(board) => board_copy(board),
            None => board_new(env),
        }
    }

    /// The whole history, oldest tip first: an empty vector before the first
    /// tip.
    pub fn tip_history(env: &Env, ledger: &Ledger) -> (history: History)
        ensures
            history_tips(history) == ledger@.tips,
    {
        match &ledger.history {
            Some(history) => history_copy(history),
            None => history_new(env),
        }
    }
}

} // verus!
