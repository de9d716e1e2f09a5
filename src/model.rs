//! The auction as a pure state machine over mathematical values.
//!
//! Every executable operation of the crate is proved to compute exactly the
//! step given here; the properties of the auction are proved over these steps.
use vstd::prelude::*;
use vstd::utf8::encode_utf8;

use crate::commission::{commission_of, DEFAULT_COMMISSION, RATE_SCALE};
use crate::error::ContractError;

verus! {

/// The whole state of one auction.
///
/// `bids` lists each party that ever escrowed funds with its net total, in the
/// order the parties first appeared; a withdrawn entry stays at zero.
pub struct AuctionState {
    pub commodity: Seq<char>,
    pub owner: Seq<char>,
    pub rate: nat,
    pub denom: Seq<char>,
    pub closed: bool,
    pub winner: Seq<char>,
    pub winning_total: nat,
    pub bids: Seq<(Seq<char>, nat)>,
}

/// An instruction to send `amount` of the auction's denomination to `recipient`.
pub struct Payout {
    pub recipient: Seq<char>,
    pub amount: nat,
}

/// What a caller asks of the auction.
pub enum Action {
    Bid,
    Close,
    Retract { receiver: Option<Seq<char>> },
}

/// One operation: who acts, which coins they attach, and what they ask.
pub struct Call {
    pub sender: Seq<char>,
    pub funds: Seq<(Seq<char>, nat)>,
    pub action: Action,
}

/// Index of the last entry held by `party`, or -1 when it has none.
pub open spec fn position(bids: Seq<(Seq<char>, nat)>, party: Seq<char>) -> int
    decreases bids.len(),
{
    if bids.len() == 0 {
        -1
    } else if bids.last().0 == party {
        bids.len() - 1
    } else {
        position(bids.drop_last(), party)
    }
}

/// The net total escrowed by `party`; zero when it has no entry.
pub open spec fn stored(bids: Seq<(Seq<char>, nat)>, party: Seq<char>) -> nat {
    let i = position(bids, party);
    if i >= 0 {
        bids[i].1
    } else {
        0
    }
}

/// The ledger after `party`'s total is set to `total`: its entry is rewritten
/// in place, or a new entry is appended.
pub open spec fn credit(bids: Seq<(Seq<char>, nat)>, party: Seq<char>, total: nat) -> Seq<
    (Seq<char>, nat),
> {
    let i = position(bids, party);
    if i >= 0 {
        bids.update(i, (party, total))
    } else {
        bids.push((party, total))
    }
}

/// The sum of all escrowed totals.
pub open spec fn escrowed(bids: Seq<(Seq<char>, nat)>) -> nat
    decreases bids.len(),
{
    if bids.len() == 0 {
        0
    } else {
        escrowed(bids.drop_last()) + bids.last().1
    }
}

/// No party holds two entries.
pub open spec fn parties_unique(bids: Seq<(Seq<char>, nat)>) -> bool {
    forall|i: int, j: int| 0 <= i < j < bids.len() ==> bids[i].0 != bids[j].0
}

impl AuctionState {
    /// The invariant of every reachable state: the rate is at most 100%, each
    /// party has one entry, and the current winner holds an entry equal to the
    /// winning total, which no entry exceeds.
    pub open spec fn wf(self) -> bool {
        &&& self.rate <= RATE_SCALE
        &&& parties_unique(self.bids)
        &&& position(self.bids, self.winner) >= 0
        &&& stored(self.bids, self.winner) == self.winning_total
        &&& forall|i: int| 0 <= i < self.bids.len() ==> self.bids[i].1 <= self.winning_total
    }
}

/// A commodity name is accepted when its UTF-8 encoding has 3 to 50 bytes.
pub open spec fn name_is_valid(commodity: Seq<char>) -> bool {
    3 <= encode_utf8(commodity).len() <= 50
}

/// The auction created by `sender` attaching `funds`: the owner (the override or
/// the sender) becomes the first bidder with the whole deposit, commission free.
pub open spec fn instantiate_outcome(
    sender: Seq<char>,
    funds: Seq<(Seq<char>, nat)>,
    commodity: Seq<char>,
    owner: Option<Seq<char>>,
    rate: Option<nat>,
) -> Result<AuctionState, ContractError> {
    let owner = match owner {
        Some(o) => o,
        None => sender,
    };
    let rate = match rate {
        Some(r) => r,
        None => DEFAULT_COMMISSION as nat,
    };
    if funds.len() != 1 {
        Err(ContractError::TooManyOrLittleNativeTokensSent {  })
    } else if !name_is_valid(commodity) {
        Err(ContractError::InvalidCommodityName {  })
    } else if rate > RATE_SCALE {
        Err(ContractError::InvalidCommission {  })
    } else {
        Ok(
            AuctionState {
                commodity,
                owner,
                rate,
                denom: funds[0].0,
                closed: false,
                winner: owner,
                winning_total: funds[0].1,
                bids: seq![(owner, funds[0].1)],
            },
        )
    }
}

/// A bid: checked in order for the owner bidding, a closed auction, the number
/// of coins and their denomination; then the commission is taken and the net
/// amount added to the bidder's total, which must beat the winning total and
/// must not come from the current winner. On success the bidder becomes the
/// winner and the commission goes to the owner.
pub open spec fn bid_outcome(
    s: AuctionState,
    sender: Seq<char>,
    funds: Seq<(Seq<char>, nat)>,
) -> Result<(AuctionState, Payout), ContractError> {
    if sender == s.owner {
        Err(ContractError::Unauthorized {  })
    } else if s.closed {
        Err(ContractError::BidClosed {  })
    } else if funds.len() != 1 {
        Err(ContractError::TooManyOrLittleNativeTokensSent {  })
    } else if funds[0].0 != s.denom {
        Err(ContractError::WrongDenom {  })
    } else {
        let fee = commission_of(funds[0].1, s.rate);
        let total = stored(s.bids, sender) + funds[0].1 - fee;
        if total <= s.winning_total {
            Err(ContractError::BidTooLow {  })
        } else if sender == s.winner {
            Err(ContractError::YouAreTheHighestBidder {  })
        } else {
            Ok(
                (
                    AuctionState {
                        winner: sender,
                        winning_total: total as nat,
                        bids: credit(s.bids, sender, total as nat),
                        ..s
                    },
                    Payout { recipient: s.owner, amount: fee },
                ),
            )
        }
    }
}

/// Closing: only the owner, only once; the winning total goes to the owner.
pub open spec fn close_outcome(s: AuctionState, sender: Seq<char>) -> Result<
    (AuctionState, Payout),
    ContractError,
> {
    if sender != s.owner {
        Err(ContractError::Unauthorized {  })
    } else if s.closed {
        Err(ContractError::BidClosed {  })
    } else {
        Ok((AuctionState { closed: true, ..s }, Payout { recipient: s.owner, amount: s.winning_total }))
    }
}

/// Retracting: only once closed, never by the winner, only with funds left;
/// the whole total goes to the receiver (the sender by default) and the
/// sender's entry drops to zero.
pub open spec fn retract_outcome(
    s: AuctionState,
    sender: Seq<char>,
    receiver: Option<Seq<char>>,
) -> Result<(AuctionState, Payout), ContractError> {
    if !s.closed {
        Err(ContractError::BidStillOpen {  })
    } else if sender == s.winner {
        Err(ContractError::WinnerCannotRetractBid {  })
    } else if stored(s.bids, sender) == 0 {
        Err(ContractError::NothingToRetract {  })
    } else {
        let recipient = match receiver {
            Some(r) => r,
            None => sender,
        };
        Ok(
            (
                AuctionState { bids: credit(s.bids, sender, 0), ..s },
                Payout { recipient, amount: stored(s.bids, sender) },
            ),
        )
    }
}

/// The outcome of any call.
pub open spec fn step(s: AuctionState, c: Call) -> Result<(AuctionState, Payout), ContractError> {
    match c.action {
        Action::Bid => bid_outcome(s, c.sender, c.funds),
        Action::Close => close_outcome(s, c.sender),
        Action::Retract { receiver } => retract_outcome(s, c.sender, receiver),
    }
}

/// The state after a call: the new state on success, the old one on failure.
pub open spec fn after(s: AuctionState, c: Call) -> AuctionState {
    match step(s, c) {
        Ok((t, _)) => t,
        Err(_) => s,
    }
}

/// The state after a sequence of calls, in order.
pub open spec fn run(s: AuctionState, calls: Seq<Call>) -> AuctionState
    decreases calls.len(),
{
    if calls.len() == 0 {
        s
    } else {
        after(run(s, calls.drop_last()), calls.last())
    }
}

/// `position` finds an entry of `party`, and only when there is one.
pub proof fn lemma_position(bids: Seq<(Seq<char>, nat)>, party: Seq<char>)
    ensures
        -1 <= position(bids, party) < bids.len(),
        position(bids, party) >= 0 ==> bids[position(bids, party)].0 == party,
        position(bids, party) < 0 ==> forall|i: int| 0 <= i < bids.len() ==> bids[i].0 != party,
    decreases bids.len(),
{
    if bids.len() > 0 && bids.last().0 != party {
        lemma_position(bids.drop_last(), party);
        assert forall|i: int| 0 <= i < bids.len() && position(bids, party) < 0 implies bids[i].0
            != party by {
            if i < bids.len() - 1 {
                assert(bids[i] == bids.drop_last()[i]);
            }
        }
    }
}

/// Two ledgers with the same parties at the same places agree on `position`.
pub proof fn lemma_position_same_parties(
    a: Seq<(Seq<char>, nat)>,
    b: Seq<(Seq<char>, nat)>,
    party: Seq<char>,
)
    requires
        a.len() == b.len(),
        forall|i: int| 0 <= i < a.len() ==> a[i].0 == b[i].0,
    ensures
        position(a, party) == position(b, party),
    decreases a.len(),
{
    if a.len() > 0 {
        lemma_position_same_parties(a.drop_last(), b.drop_last(), party);
    }
}

/// Setting `party`'s total changes its entry alone.
pub proof fn lemma_credit(bids: Seq<(Seq<char>, nat)>, party: Seq<char>, total: nat, other: Seq<char>)
    ensures
        stored(credit(bids, party, total), party) == total,
        other != party ==> stored(credit(bids, party, total), other) == stored(bids, other),
        position(credit(bids, party, total), other) >= 0 <==> (other == party || position(
            bids,
            other,
        ) >= 0),
        parties_unique(bids) ==> parties_unique(credit(bids, party, total)),
        escrowed(credit(bids, party, total)) == escrowed(bids) - stored(bids, party) + total,
{
    lemma_position(bids, party);
    let i = position(bids, party);
    let c = credit(bids, party, total);
    if i >= 0 {
        lemma_position_same_parties(bids, c, party);
        lemma_position_same_parties(bids, c, other);
        lemma_position(bids, other);
        lemma_escrowed_update(bids, i, (party, total));
    } else {
        assert(c.drop_last() =~= bids);
        lemma_position(bids, other);
    }
}

/// Rewriting one entry changes the sum by the difference.
pub proof fn lemma_escrowed_update(bids: Seq<(Seq<char>, nat)>, i: int, e: (Seq<char>, nat))
    requires
        0 <= i < bids.len(),
    ensures
        escrowed(bids.update(i, e)) == escrowed(bids) - bids[i].1 + e.1,
    decreases bids.len(),
{
    let u = bids.update(i, e);
    if i == bids.len() - 1 {
        assert(u.drop_last() =~= bids.drop_last());
    } else {
        lemma_escrowed_update(bids.drop_last(), i, e);
        assert(u.drop_last() =~= bids.drop_last().update(i, e));
    }
}

} // verus!
