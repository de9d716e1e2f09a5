//! Properties of the auction that hold over every sequence of operations.
use vstd::prelude::*;

use crate::commission::lemma_commission_bounded;
use crate::error::ContractError;
use crate::model::{
    after, escrowed, instantiate_outcome, lemma_credit, lemma_position, run, step, stored, Action,
    AuctionState, Call, Payout,
};

verus! {

/// The winner holds the largest total of any party.
pub open spec fn holds_highest_total(s: AuctionState) -> bool {
    &&& stored(s.bids, s.winner) == s.winning_total
    &&& forall|p: Seq<char>| #[trigger] stored(s.bids, p) <= s.winning_total
}

/// The gross amount a call brings into escrow: the coin of an accepted bid.
pub open spec fn gross_in(s: AuctionState, c: Call) -> nat {
    match (c.action, step(s, c)) {
        (Action::Bid, Ok(_)) => c.funds[0].1,
        _ => 0,
    }
}

/// The commission a call pays to the owner: that of an accepted bid.
pub open spec fn commission_out(s: AuctionState, c: Call) -> nat {
    match (c.action, step(s, c)) {
        (Action::Bid, Ok((_, p))) => p.amount,
        _ => 0,
    }
}

/// The funds a call hands back: those of an accepted retraction.
pub open spec fn retracted_out(s: AuctionState, c: Call) -> nat {
    match (c.action, step(s, c)) {
        (Action::Retract { .. }, Ok((_, p))) => p.amount,
        _ => 0,
    }
}

/// The gross amount that a sequence of calls brings in.
pub open spec fn total_gross_in(s: AuctionState, calls: Seq<Call>) -> nat
    decreases calls.len(),
{
    if calls.len() == 0 {
        0
    } else {
        total_gross_in(s, calls.drop_last()) + gross_in(run(s, calls.drop_last()), calls.last())
    }
}

/// The commissions that a sequence of calls pays.
pub open spec fn total_commission(s: AuctionState, calls: Seq<Call>) -> nat
    decreases calls.len(),
{
    if calls.len() == 0 {
        0
    } else {
        total_commission(s, calls.drop_last()) + commission_out(
            run(s, calls.drop_last()),
            calls.last(),
        )
    }
}

/// The funds that a sequence of calls hands back.
pub open spec fn total_retracted(s: AuctionState, calls: Seq<Call>) -> nat
    decreases calls.len(),
{
    if calls.len() == 0 {
        0
    } else {
        total_retracted(s, calls.drop_last()) + retracted_out(
            run(s, calls.drop_last()),
            calls.last(),
        )
    }
}

/// A new auction satisfies the invariant.
pub proof fn lemma_instantiate_wf(
    sender: Seq<char>,
    funds: Seq<(Seq<char>, nat)>,
    commodity: Seq<char>,
    owner: Option<Seq<char>>,
    rate: Option<nat>,
)
    requires
        instantiate_outcome(sender, funds, commodity, owner, rate) is Ok,
    ensures
        instantiate_outcome(sender, funds, commodity, owner, rate)->Ok_0.wf(),
        escrowed(instantiate_outcome(sender, funds, commodity, owner, rate)->Ok_0.bids)
            == funds[0].1,
{
    let s = instantiate_outcome(sender, funds, commodity, owner, rate)->Ok_0;
    assert(s.bids.drop_last() =~= Seq::<(Seq<char>, nat)>::empty());
    assert(escrowed(s.bids.drop_last()) == 0);
}

/// Every entry bounded by the winning total bounds every party's total.
proof fn lemma_entries_bound_stored(s: AuctionState)
    requires
        s.wf(),
    ensures
        holds_highest_total(s),
{
    assert forall|p: Seq<char>| #[trigger] stored(s.bids, p) <= s.winning_total by {
        lemma_position(s.bids, p);
    }
}

/// Every call keeps the invariant; an accepted bid raises the winning total,
/// and no call lowers it.
pub proof fn lemma_step_wf(s: AuctionState, c: Call)
    requires
        s.wf(),
    ensures
        after(s, c).wf(),
        after(s, c).winning_total >= s.winning_total,
        (c.action is Bid && step(s, c) is Ok) ==> after(s, c).winning_total > s.winning_total,
{
    match c.action {
        Action::Bid => {
            if step(s, c) is Ok {
                let t = after(s, c);
                lemma_commission_bounded(c.funds[0].1, s.rate);
                let total = t.winning_total;
                lemma_credit(s.bids, c.sender, total, c.sender);
                lemma_position(s.bids, c.sender);
                assert forall|i: int| 0 <= i < t.bids.len() implies t.bids[i].1 <= t.winning_total by {
                    if i < s.bids.len() && t.bids[i] == s.bids[i] {
                    }
                }
            }
        },
        Action::Close => {},
        Action::Retract { receiver } => {
            if step(s, c) is Ok {
                let t = after(s, c);
                lemma_credit(s.bids, c.sender, 0, s.winner);
                lemma_position(s.bids, c.sender);
                assert forall|i: int| 0 <= i < t.bids.len() implies t.bids[i].1 <= t.winning_total by {
                    if t.bids[i] == s.bids[i] {
                    }
                }
            }
        },
    }
}

/// Every state that a run reaches satisfies the invariant.
pub proof fn lemma_run_wf(s: AuctionState, calls: Seq<Call>)
    requires
        s.wf(),
    ensures
        run(s, calls).wf(),
    decreases calls.len(),
{
    if calls.len() > 0 {
        lemma_run_wf(s, calls.drop_last());
        lemma_step_wf(run(s, calls.drop_last()), calls.last());
    }
}

/// Along any sequence of calls the winning total never goes down, and after
/// every call it is the largest total that any party holds, held by the winner.
pub proof fn winning_total_never_decreases(s: AuctionState, calls: Seq<Call>, i: int, j: int)
    requires
        s.wf(),
        0 <= i <= j <= calls.len(),
    ensures
        run(s, calls.take(i)).winning_total <= run(s, calls.take(j)).winning_total,
        holds_highest_total(run(s, calls.take(j))),
    decreases j - i,
{
    lemma_run_wf(s, calls.take(j));
    lemma_entries_bound_stored(run(s, calls.take(j)));
    if i < j {
        winning_total_never_decreases(s, calls, i, j - 1);
        assert(calls.take(j).drop_last() =~= calls.take(j - 1));
        lemma_run_wf(s, calls.take(j - 1));
        lemma_step_wf(run(s, calls.take(j - 1)), calls[j - 1]);
    }
}

/// One call moves value between escrow, commissions and retractions without
/// creating or destroying any.
proof fn lemma_step_conserves(s: AuctionState, c: Call)
    requires
        s.wf(),
    ensures
        escrowed(after(s, c).bids) + commission_out(s, c) + retracted_out(s, c) == escrowed(s.bids)
            + gross_in(s, c),
{
    match c.action {
        Action::Bid => {
            if step(s, c) is Ok {
                lemma_commission_bounded(c.funds[0].1, s.rate);
                lemma_credit(s.bids, c.sender, after(s, c).winning_total, c.sender);
            }
        },
        Action::Close => {},
        Action::Retract { receiver } => {
            if step(s, c) is Ok {
                lemma_credit(s.bids, c.sender, 0, c.sender);
            }
        },
    }
}

/// From the creation of an auction on, the escrowed totals plus the
/// commissions paid plus the funds handed back always equal the owner's
/// deposit plus every gross amount that accepted bids attached: no value is
/// created or destroyed. (The owner's deposit is escrowed as the owner's own
/// entry until it is handed back.)
pub proof fn value_is_conserved(
    sender: Seq<char>,
    funds: Seq<(Seq<char>, nat)>,
    commodity: Seq<char>,
    owner: Option<Seq<char>>,
    rate: Option<nat>,
    calls: Seq<Call>,
)
    requires
        instantiate_outcome(sender, funds, commodity, owner, rate) is Ok,
    ensures
        ({
            let s = instantiate_outcome(sender, funds, commodity, owner, rate)->Ok_0;
            escrowed(run(s, calls).bids) + total_commission(s, calls) + total_retracted(s, calls)
                == funds[0].1 + total_gross_in(s, calls)
        }),
{
    lemma_instantiate_wf(sender, funds, commodity, owner, rate);
    let s = instantiate_outcome(sender, funds, commodity, owner, rate)->Ok_0;
    lemma_run_conserves(s, calls);
}

/// The balance of `value_is_conserved`, from any state that keeps the invariant.
proof fn lemma_run_conserves(s: AuctionState, calls: Seq<Call>)
    requires
        s.wf(),
    ensures
        escrowed(run(s, calls).bids) + total_commission(s, calls) + total_retracted(s, calls)
            == escrowed(s.bids) + total_gross_in(s, calls),
    decreases calls.len(),
{
    if calls.len() > 0 {
        lemma_run_conserves(s, calls.drop_last());
        lemma_run_wf(s, calls.drop_last());
        lemma_step_conserves(run(s, calls.drop_last()), calls.last());
    }
}

/// Once closed, an auction stays closed with the same winner, and no party's
/// total grows.
proof fn lemma_closed_run(s: AuctionState, calls: Seq<Call>, p: Seq<char>)
    requires
        s.wf(),
        s.closed,
    ensures
        run(s, calls).closed,
        run(s, calls).winner == s.winner,
        stored(run(s, calls).bids, p) <= stored(s.bids, p),
    decreases calls.len(),
{
    if calls.len() > 0 {
        let prev = run(s, calls.drop_last());
        lemma_closed_run(s, calls.drop_last(), p);
        lemma_run_wf(s, calls.drop_last());
        let c = calls.last();
        if c.action is Retract && step(prev, c) is Ok {
            lemma_credit(prev.bids, c.sender, 0, p);
        }
    }
}

/// After a party has retracted, every later retraction by that party fails
/// with `NothingToRetract`, whatever happens in between.
pub proof fn retract_succeeds_at_most_once(
    s: AuctionState,
    first: Call,
    later: Seq<Call>,
    again: Call,
)
    requires
        s.wf(),
        first.action is Retract,
        step(s, first) is Ok,
        again.action is Retract,
        again.sender == first.sender,
    ensures
        step(run(after(s, first), later), again) == Err::<(AuctionState, Payout), ContractError>(
            ContractError::NothingToRetract {  },
        ),
{
    let t = after(s, first);
    lemma_step_wf(s, first);
    lemma_credit(s.bids, first.sender, 0, first.sender);
    lemma_closed_run(t, later, first.sender);
}

/// After the auction is closed, a retraction by the settled winner always
/// fails with `WinnerCannotRetractBid`, whatever happens in between.
pub proof fn winner_cannot_retract(s: AuctionState, close: Call, later: Seq<Call>, attempt: Call)
    requires
        s.wf(),
        close.action is Close,
        step(s, close) is Ok,
        attempt.action is Retract,
        attempt.sender == s.winner,
    ensures
        step(run(after(s, close), later), attempt) == Err::<(AuctionState, Payout), ContractError>(
            ContractError::WinnerCannotRetractBid {  },
        ),
{
    lemma_step_wf(s, close);
    lemma_closed_run(after(s, close), later, s.winner);
}

} // verus!
