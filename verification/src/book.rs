//! The ledger as mathematics: a map of totals and a sequence of tips, what
//! recording a tip does to them, and what a run of calls leaves behind.

use crate::types::{CoffeeEvent, Tip, TipError};
use soroban_sdk::Address;
use vstd::prelude::*;

verus! {

/// What one tip adds to the sum of `who`: its amount if `who` made it.
pub open spec fn share(tip: Tip, who: Address) -> int {
    if tip.from == who {
        tip.amount as int
    } else {
        0
    }
}

/// The sum of the amounts of the tips that `who` made.
pub open spec fn sum_from(tips: Seq<Tip>, who: Address) -> int
    decreases tips.len(),
{
    if tips.len() == 0 {
        0
    } else {
        sum_from(tips.drop_last(), who) + share(tips.last(), who)
    }
}

/// Whether `who` made one of the tips.
pub open spec fn paid(tips: Seq<Tip>, who: Address) -> bool {
    exists|i: int| 0 <= i < tips.len() && (#[trigger] tips[i]).from == who
}

/// One request to record a tip, with what the host said of its authorization.
pub struct Call {
    pub authorized: bool,
    pub from: Address,
    pub amount: i128,
    pub message: soroban_sdk::String,
}

impl Call {
    /// Whether the request passes both checks: the payer has authorized it and
    /// the amount is above zero.
    pub open spec fn accepted(self) -> bool {
        self.authorized && self.amount > 0
    }

    /// The tip that the request asks to record.
    pub open spec fn tip(self) -> Tip {
        Tip { from: self.from, amount: self.amount, message: self.message }
    }

    /// What the caller is told: the event of an accepted request, or the
    /// first check that the request fails. Authorization is checked before
    /// the amount.
    pub open spec fn outcome(self) -> Result<CoffeeEvent, TipError> {
        if !self.authorized {
            Err(TipError::Authorization)
        } else if self.amount <= 0 {
            Err(TipError::InvalidAmount)
        } else {
            Ok(CoffeeEvent { from: self.from, amount: self.amount })
        }
    }
}

/// The tips of the accepted calls, in the order of the calls.
pub open spec fn served(calls: Seq<Call>) -> Seq<Tip> {
    calls.filter(|call: Call| call.accepted()).map_values(|call: Call| call.tip())
}

/// The two aggregates of the ledger.
pub struct Book {
    /// The leaderboard: one entry for each address that has tipped.
    pub totals: Map<Address, i128>,
    /// The history: every tip, oldest first.
    pub tips: Seq<Tip>,
}

impl Book {
    /// The ledger before the first tip.
    pub open spec fn fresh() -> Book {
        Book { totals: Map::empty(), tips: Seq::empty() }
    }

    /// The total of `who`: zero for an address without an entry.
    pub open spec fn total_of(self, who: Address) -> int {
        if self.totals.contains_key(who) {
            self.totals[who] as int
        } else {
            0
        }
    }

    /// Whether the total of `who` with `amount` added is still a 128-bit
    /// integer.
    pub open spec fn fits(self, who: Address, amount: i128) -> bool {
        i128::MIN <= self.total_of(who) + amount <= i128::MAX
    }

    /// Whether a tip of `amount` from `who` stays within the limits of the
    /// machine: the new total fits, and neither aggregate is asked to grow
    /// beyond the `u32::MAX` items that the host lets it hold.
    pub open spec fn admits(self, who: Address, amount: i128) -> bool {
        &&& self.fits(who, amount)
        &&& self.totals.contains_key(who) || self.totals.len() < u32::MAX
        &&& self.tips.len() < u32::MAX
    }

    /// The ledger after `tip` is recorded: the payer's total grows by the
    /// amount, and the tip stands last in the history.
    pub open spec fn record(self, tip: Tip) -> Book {
        Book {
            totals: self.totals.insert(tip.from, (self.total_of(tip.from) + tip.amount) as i128),
            tips: self.tips.push(tip),
        }
    }

    /// The ledger after one call: an accepted call records its tip, any other
    /// leaves the ledger as it was.
    pub open spec fn step(self, call: Call) -> Book {
        if call.accepted() {
            self.record(call.tip())
        } else {
            self
        }
    }

    /// The ledger after the calls, taken first to last.
    pub open spec fn run(self, calls: Seq<Call>) -> Book
        decreases calls.len(),
    {
        if calls.len() == 0 {
            self
        } else {
            self.run(calls.drop_last()).step(calls.last())
        }
    }

    /// Whether the totals of the run stay 128-bit integers: the amount of
    /// every accepted call fits on the total that the calls before it have left.
    pub open spec fn adds_up(self, calls: Seq<Call>) -> bool
        decreases calls.len(),
    {
        calls.len() == 0 || {
            &&& self.adds_up(calls.drop_last())
            &&& calls.last().accepted() ==> self.run(calls.drop_last()).fits(
                calls.last().from,
                calls.last().amount,
            )
        }
    }

    /// Every total is the sum of the payer's tips.
    pub open spec fn balanced(self) -> bool {
        forall|who: Address| #[trigger] self.total_of(who) == sum_from(self.tips, who)
    }

    /// The leaderboard has an entry for exactly the addresses that have tipped.
    pub open spec fn listed(self) -> bool {
        forall|who: Address| #[trigger] self.totals.contains_key(who) <==> paid(self.tips, who)
    }

    /// No tip of the history has an amount of zero or less.
    pub open spec fn positive(self) -> bool {
        forall|i: int| 0 <= i < self.tips.len() ==> (#[trigger] self.tips[i]).amount > 0
    }

    /// The leaderboard and the history tell the same story.
    pub open spec fn consistent(self) -> bool {
        self.balanced() && self.listed() && self.positive()
    }
}

/// A tip at the end of the history adds its share to the sum of each payer.
pub proof fn sum_from_push(tips: Seq<Tip>, tip: Tip, who: Address)
    ensures
        sum_from(tips.push(tip), who) == sum_from(tips, who) + share(tip, who),
{
    assert(tips.push(tip).drop_last() =~= tips);
}

/// After a tip is added, the payers are those of before and the new one.
pub proof fn paid_push(tips: Seq<Tip>, tip: Tip, who: Address)
    ensures
        paid(tips.push(tip), who) <==> paid(tips, who) || tip.from == who,
{
    let more = tips.push(tip);
    if paid(tips, who) {
        let i = choose|i: int| 0 <= i < tips.len() && (#[trigger] tips[i]).from == who;
        assert(more[i].from == who);
    }
    if tip.from == who {
        assert(more[tips.len() as int].from == who);
    }
    if paid(more, who) {
        let i = choose|i: int| 0 <= i < more.len() && (#[trigger] more[i]).from == who;
        if i < tips.len() {
            assert(tips[i].from == who);
        }
    }
}

/// The accepted tips of a run that is one call longer.
pub proof fn served_push(calls: Seq<Call>, call: Call)
    ensures
        served(calls.push(call)) == if call.accepted() {
            served(calls).push(call.tip())
        } else {
            served(calls)
        },
{
    reveal(Seq::filter);
    assert(calls.push(call).drop_last() =~= calls);
    if call.accepted() {
        assert(served(calls.push(call)) =~= served(calls).push(call.tip()));
    } else {
        assert(served(calls.push(call)) =~= served(calls));
    }
}

} // verus!
