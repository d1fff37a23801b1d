//! What holds of every ledger that calls have brought about, whatever the
//! calls were.

use crate::book::{paid, paid_push, served, served_push, sum_from, sum_from_push, Book, Call};
use crate::contract::Contract;
use crate::host::{board_totals, history_tips, Board, History};
use crate::ledger::Ledger;
use soroban_sdk::{Address, Env};
use vstd::prelude::*;

verus! {

/// The number of accepted calls among `calls`.
pub open spec fn accepted_count(calls: Seq<Call>) -> nat {
    served(calls).len()
}

/// The ledger of a new instance is consistent: it has no entry, no tip, and
/// every total and every sum is zero.
pub proof fn fresh_is_consistent()
    ensures
        Book::fresh().consistent(),
{
}

/// One call leaves a consistent ledger consistent: after it every total is
/// still the sum of the payer's tips, the leaderboard still lists exactly the
/// payers, and every amount in the history is still above zero. The new total
/// of an accepted call has to fit in 128 bits: a sum that does not is no
/// total.
pub proof fn step_keeps_consistent(book: Book, call: Call)
    requires
        book.consistent(),
        call.accepted() ==> book.fits(call.from, call.amount),
    ensures
        book.step(call).consistent(),
{
    if call.accepted() {
        let tip = call.tip();
        let next = book.record(tip);
        assert forall|who: Address| #[trigger] next.total_of(who) == sum_from(next.tips, who) by {
            sum_from_push(book.tips, tip, who);
            assert(book.total_of(who) == sum_from(book.tips, who));
        }
        assert forall|who: Address| #[trigger]
            next.totals.contains_key(who) <==> paid(next.tips, who) by {
            paid_push(book.tips, tip, who);
            assert(book.totals.contains_key(who) <==> paid(book.tips, who));
        }
        assert forall|i: int| 0 <= i < next.tips.len() implies (#[trigger] next.tips[i]).amount
            > 0 by {
            if i < book.tips.len() {
                assert(book.tips[i].amount > 0);
            }
        }
    }
}

/// A run of calls whose totals fit leaves a consistent ledger consistent.
pub proof fn run_keeps_consistent(book: Book, calls: Seq<Call>)
    requires
        book.consistent(),
        book.adds_up(calls),
    ensures
        book.run(calls).consistent(),
    decreases calls.len(),
{
    if calls.len() > 0 {
        run_keeps_consistent(book, calls.drop_last());
        step_keeps_consistent(book.run(calls.drop_last()), calls.last());
    }
}

/// After any run of calls on a new instance whose totals fit, the total of
/// every address is the sum of the amounts of its tips in the history, and an
/// entry of the leaderboard holds that same number.
pub proof fn totals_are_sums(calls: Seq<Call>, who: Address)
    requires
        Book::fresh().adds_up(calls),
    ensures
        Book::fresh().run(calls).total_of(who) == sum_from(Book::fresh().run(calls).tips, who),
        Book::fresh().run(calls).totals.contains_key(who) ==> Book::fresh().run(calls).totals[who]
            == sum_from(Book::fresh().run(calls).tips, who),
{
    run_keeps_consistent(Book::fresh(), calls);
    assert(Book::fresh().run(calls).total_of(who) == sum_from(Book::fresh().run(calls).tips, who));
}

/// A run of calls puts no amount of zero or less into the history.
pub proof fn run_keeps_positive(book: Book, calls: Seq<Call>)
    requires
        book.positive(),
    ensures
        book.run(calls).positive(),
    decreases calls.len(),
{
    if calls.len() > 0 {
        run_keeps_positive(book, calls.drop_last());
        let before = book.run(calls.drop_last());
        let after = book.run(calls);
        assert forall|i: int| 0 <= i < after.tips.len() implies (#[trigger] after.tips[i]).amount
            > 0 by {
            if i < before.tips.len() {
                assert(before.tips[i].amount > 0);
            }
        }
    }
}

/// After any run of calls on a new instance, every tip in the history has an
/// amount above zero.
pub proof fn tips_are_positive(calls: Seq<Call>)
    ensures
        Book::fresh().run(calls).positive(),
{
    run_keeps_positive(Book::fresh(), calls);
}

/// A run of calls appends the tips of its accepted calls to the history, in
/// the order of the calls, and changes nothing that was there.
pub proof fn run_appends_in_call_order(book: Book, calls: Seq<Call>)
    ensures
        book.run(calls).tips == book.tips + served(calls),
    decreases calls.len(),
{
    reveal(Seq::filter);
    if calls.len() == 0 {
        assert(book.tips + served(calls) =~= book.tips);
    } else {
        let earlier = calls.drop_last();
        let last = calls.last();
        run_appends_in_call_order(book, earlier);
        served_push(earlier, last);
        assert(earlier.push(last) =~= calls);
        if last.accepted() {
            assert((book.tips + served(earlier)).push(last.tip()) =~= book.tips + served(
                earlier,
            ).push(last.tip()));
        }
    }
}

/// After any run of calls on a new instance, the history holds the tips of
/// the accepted calls and no others, in the order in which the calls came.
pub proof fn history_keeps_call_order(calls: Seq<Call>)
    ensures
        Book::fresh().run(calls).tips == served(calls),
{
    run_appends_in_call_order(Book::fresh(), calls);
    assert(Book::fresh().tips + served(calls) =~= served(calls));
}

/// After a run of calls the history is longer by the number of accepted
/// calls: a refused call adds nothing. On a new instance its length is that
/// number.
pub proof fn history_counts_accepted(book: Book, calls: Seq<Call>)
    ensures
        book.run(calls).tips.len() == book.tips.len() + accepted_count(calls),
        Book::fresh().run(calls).tips.len() == accepted_count(calls),
{
    run_appends_in_call_order(book, calls);
    history_keeps_call_order(calls);
}

/// Every call is accepted or refused: the accepted and the refused calls of a
/// run add up to its length.
pub proof fn calls_are_accepted_or_refused(calls: Seq<Call>)
    ensures
        accepted_count(calls) + calls.filter(|call: Call| !call.accepted()).len() == calls.len(),
    decreases calls.len(),
{
    reveal(Seq::filter);
    if calls.len() > 0 {
        calls_are_accepted_or_refused(calls.drop_last());
        served_push(calls.drop_last(), calls.last());
        assert(calls.drop_last().push(calls.last()) =~= calls);
    }
}

/// Calls that are all refused leave the ledger as it was.
pub proof fn refused_calls_change_nothing(book: Book, calls: Seq<Call>)
    requires
        forall|i: int| 0 <= i < calls.len() ==> !(#[trigger] calls[i]).accepted(),
    ensures
        book.run(calls) == book,
    decreases calls.len(),
{
    if calls.len() > 0 {
        refused_calls_change_nothing(book, calls.drop_last());
        assert(!calls[calls.len() - 1].accepted());
    }
}

/// Reading repeats. Whatever `total_donated`, `leaderboard` and `tip_history`
/// return for a ledger, they return the same for it again: the same total,
/// a leaderboard with the same entries, a history with the same tips.
pub proof fn reads_repeat(
    env: Env,
    ledger: Ledger,
    user: Address,
    totals: (i128, i128),
    boards: (Board, Board),
    histories: (History, History),
)
    requires
        call_ensures(Contract::total_donated, (&ledger, user), totals.0),
        call_ensures(Contract::total_donated, (&ledger, user), totals.1),
        call_ensures(Contract::leaderboard, (&env, &ledger), boards.0),
        call_ensures(Contract::leaderboard, (&env, &ledger), boards.1),
        call_ensures(Contract::tip_history, (&env, &ledger), histories.0),
        call_ensures(Contract::tip_history, (&env, &ledger), histories.1),
    ensures
        totals.0 == totals.1,
        board_totals(boards.0) == board_totals(boards.1),
        history_tips(histories.0) == history_tips(histories.1),
{
}

} // verus!
