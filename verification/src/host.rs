//! The boundary to the Soroban host.
//!
//! The leaderboard and the tip history live in the host, as a `soroban_sdk::Map`
//! and a `soroban_sdk::Vec`, and every operation on them is a host call. Nothing
//! in this module is proved: each function states what the SDK documents of the
//! call it makes, and the rest of the library is verified against these
//! statements.
//!
//! Host values are handles. Two addresses, or two strings, are equal in a
//! contract exactly when the host compares them as equal, whatever handle
//! carries them, and a collection is its contents. All values handed to one call
//! belong to one environment.
//!
//! The host meters every call and stops the invocation when its budget is
//! spent. A contract here speaks of a call that the host lets return.

use crate::types::Tip;
use soroban_sdk::{Address, Env};
use vstd::prelude::*;

verus! {

/// The leaderboard as the host holds it.
pub type Board = soroban_sdk::Map<Address, i128>;

/// The tip history as the host holds it: a row of three fields for each tip.
pub type History = soroban_sdk::Vec<(Address, i128, soroban_sdk::String)>;

/// `soroban_sdk::Env`: the environment of the invocation. It is handed to the
/// calls that make a host value; nothing is read from it.
#[verifier::external_type_specification]
#[verifier::external_body]
pub struct ExEnv(soroban_sdk::Env);

/// `soroban_sdk::Address`: an account or a contract. It is carried through as a
/// key and as a field; nothing is read from it.
#[verifier::external_type_specification]
#[verifier::external_body]
pub struct ExAddress(soroban_sdk::Address);

/// `soroban_sdk::String`: the text of a message. It is carried through as a
/// field; nothing is read from it.
#[verifier::external_type_specification]
#[verifier::external_body]
pub struct ExString(soroban_sdk::String);

/// `soroban_sdk::Map`: a map that the host holds. What one holds is told by
/// `board_totals` and `board_typed`.
#[verifier::external_type_specification]
#[verifier::external_body]
#[verifier::reject_recursive_types(K)]
#[verifier::reject_recursive_types(V)]
pub struct ExMap<K, V>(soroban_sdk::Map<K, V>);

/// `soroban_sdk::Vec`: a vector that the host holds. What one holds is told by
/// `history_tips`.
#[verifier::external_type_specification]
#[verifier::external_body]
#[verifier::reject_recursive_types(T)]
pub struct ExVec<T>(soroban_sdk::Vec<T>);

/// The entries of a leaderboard: the total that it binds to each address.
pub uninterp spec fn board_totals(board: Board) -> Map<Address, i128>;

/// Whether every entry of a leaderboard binds an address to a 128-bit integer.
/// The type does not promise it: the host checks an entry only when it is read,
/// and `Map::get` stops the invocation on a value of another kind.
pub uninterp spec fn board_typed(board: Board) -> bool;

/// The rows of a tip history, first to last, each read as a tip.
pub uninterp spec fn history_tips(history: History) -> Seq<Tip>;

/// `Map::new`: a map without entries.
#[verifier::external_body]
pub(crate) fn board_new(env: &Env) -> (board: Board)
    ensures
        board_typed(board),
        board_totals(board) =~= Map::empty(),
{
    soroban_sdk::Map::new(env)
}

/// `Clone::clone` of a map: another handle to the same host map.
#[verifier::external_body]
pub(crate) fn board_copy(board: &Board) -> (handle: Board)
    ensures
        board_typed(handle) == board_typed(*board),
        board_totals(handle) == board_totals(*board),
{
    board.clone()
}

/// `Map::len`: the number of entries. A host map holds at most `u32::MAX`.
#[verifier::external_body]
pub(crate) fn board_len(board: &Board) -> (count: u32)
    requires
        board_typed(*board),
    ensures
        count == board_totals(*board).len(),
{
    board.len()
}

/// `Map::get`: the value bound to the key, or `None` where the map has no entry
/// for it.
#[verifier::external_body]
pub(crate) fn board_get(board: &Board, who: &Address) -> (total: Option<i128>)
    requires
        board_typed(*board),
    ensures
        total == board_totals(*board).get(*who),
{
    board.get(who.clone())
}

/// `Map::set`: binds the value to the key, in place of the value that the key
/// had, if it had one. The host refuses a new key in a map of `u32::MAX`
/// entries.
#[verifier::external_body]
pub(crate) fn board_set(board: &mut Board, who: &Address, total: i128)
    requires
        board_typed(*old(board)),
        board_totals(*old(board)).contains_key(*who) || board_totals(*old(board)).len() < u32::MAX,
    ensures
        board_typed(*final(board)),
        board_totals(*final(board)) == board_totals(*old(board)).insert(*who, total),
{
    board.set(who.clone(), total)
}

/// `Vec::new`: a vector without items.
#[verifier::external_body]
pub(crate) fn history_new(env: &Env) -> (history: History)
    ensures
        history_tips(history) =~= Seq::empty(),
{
    soroban_sdk::Vec::new(env)
}

/// `Clone::clone` of a vector: another handle to the same host vector.
#[verifier::external_body]
pub(crate) fn history_copy(history: &History) -> (handle: History)
    ensures
        history_tips(handle) == history_tips(*history),
{
    history.clone()
}

/// `Vec::len`: the number of items. A host vector holds at most `u32::MAX`.
#[verifier::external_body]
pub(crate) fn history_len(history: &History) -> (count: u32)
    ensures
        count == history_tips(*history).len(),
{
    history.len()
}

/// `Vec::push_back`: the length grows by one and the item stands last. The host
/// refuses it on a vector of `u32::MAX` items.
#[verifier::external_body]
pub(crate) fn history_push(history: &mut History, tip: &Tip)
    requires
        history_tips(*old(history)).len() < u32::MAX,
    ensures
        history_tips(*final(history)) == history_tips(*old(history)).push(*tip),
{
    history.push_back((tip.from.clone(), tip.amount, tip.message.clone()))
}

} // verus!
