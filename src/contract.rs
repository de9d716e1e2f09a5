//! The entry points of an auction: creating it, changing it, asking about it.
use vstd::prelude::*;

use crate::commission::DEFAULT_COMMISSION;
use crate::error::ContractError;
use crate::execute::{bid, bid_fits, close, follows, retract};
use crate::laws::lemma_instantiate_wf;
use crate::model::{instantiate_outcome, step, stored, Action, Call};
use crate::msg::{opt_nat, opt_view, ExecuteMsg, InstantiateMsg, QueryMsg, QueryResponse};
use crate::query::{bid_winner, highest_bid, is_closed, total_bid};
use crate::state::{coins_view, BidStatus, Config, Ledger, MessageInfo, Transfer};

verus! {

/// The model's view of a request: who sends it, with which coins, asking what.
pub open spec fn call_of(info: &MessageInfo, msg: ExecuteMsg) -> Call {
    Call {
        sender: info.sender@,
        funds: coins_view(info.funds@),
        action: match msg {
            ExecuteMsg::Bid {  } => Action::Bid,
            ExecuteMsg::Close {  } => Action::Close,
            ExecuteMsg::Retract { receiver } => Action::Retract { receiver: opt_view(receiver) },
        },
    }
}

/// Creates an auction from the single coin the creator attaches.
///
/// Refused when not exactly one coin is attached, then when the commodity
/// name is not 3 to 50 bytes long, then when the rate exceeds 100%. The owner
/// (the override, or else the creator) becomes the first bidder and the
/// winner with the whole deposit; the deposit's denomination is the only one
/// the auction accepts.
pub fn instantiate(info: &MessageInfo, msg: InstantiateMsg) -> (r: Result<Ledger, ContractError>)
    ensures
        match instantiate_outcome(
            info.sender@,
            coins_view(info.funds@),
            msg.commodity@,
            opt_view(msg.contract_owner),
            opt_nat(msg.commision),
        ) {
            Ok(s) => r matches Ok(l) && l@ == s && l@.wf(),
            Err(e) => r matches Err(f) && f == e,
        },
{
    if info.funds.len() != 1 {
        return Err(ContractError::TooManyOrLittleNativeTokensSent {  });
    }
    match msg.validate() {
        Ok(()) => {},
        Err(e) => {
            return Err(e);
        },
    }
    proof {
        lemma_instantiate_wf(
            info.sender@,
            coins_view(info.funds@),
            msg.commodity@,
            opt_view(msg.contract_owner),
            opt_nat(msg.commision),
        );
    }
    let coin = &info.funds[0];
    assert(coins_view(info.funds@)[0] == coin@);
    let contract_owner = match msg.contract_owner {
        Some(o) => o,
        None => info.sender.clone(),
    };
    let commission = match msg.commision {
        Some(c) => c,
        None => DEFAULT_COMMISSION,
    };
    let cfg = Config {
        commodity: msg.commodity,
        contract_owner,
        commission,
        denom: coin.denom.clone(),
        status: BidStatus::Opened,
    };
    Ok(Ledger::new(cfg, coin.amount))
}

/// Carries out a request; see `bid`, `close` and `retract`.
pub fn execute(ledger: &mut Ledger, info: &MessageInfo, msg: ExecuteMsg) -> (r: Result<
    Transfer,
    ContractError,
>)
    requires
        old(ledger)@.wf(),
        msg is Bid ==> bid_fits(old(ledger)@, info),
    ensures
        final(ledger)@.wf(),
        follows(step(old(ledger)@, call_of(info, msg)), old(ledger)@, final(ledger)@, r),
{
    match msg {
        ExecuteMsg::Bid {  } => bid(ledger, info),
        ExecuteMsg::Close {  } => close(ledger, info),
        ExecuteMsg::Retract { receiver } => retract(ledger, info, receiver),
    }
}

/// Answers a query. The answer is a function of the auction's state alone,
/// and the state is only read: asking twice gives the same answer.
pub fn query(ledger: &Ledger, msg: QueryMsg) -> (r: Result<QueryResponse, ContractError>)
    ensures
        match msg {
            QueryMsg::TotalBid { address } => r matches Ok(QueryResponse::TotalBid(t))
                && t.total_bid == stored(ledger@.bids, address@),
            QueryMsg::HighestBidder {  } => r matches Ok(QueryResponse::HighestBidder(h))
                && h.addr@ == ledger@.winner && h.total_bid == ledger@.winning_total,
            QueryMsg::IsBidClosed {  } => r matches Ok(QueryResponse::IsBidClosed(c))
                && c.is_closed == ledger@.closed,
            QueryMsg::BidWinner {  } => if ledger@.closed {
                r matches Ok(QueryResponse::BidWinner(w)) && w.winner@ == ledger@.winner
            } else {
                r == Err::<QueryResponse, ContractError>(ContractError::BidStillOpen {  })
            },
        },
{
    match msg {
        QueryMsg::TotalBid { address } => Ok(QueryResponse::TotalBid(total_bid(ledger, &address))),
        QueryMsg::HighestBidder {  } => Ok(QueryResponse::HighestBidder(highest_bid(ledger))),
        QueryMsg::IsBidClosed {  } => Ok(QueryResponse::IsBidClosed(is_closed(ledger))),
        QueryMsg::BidWinner {  } => match bid_winner(ledger) {
            Ok(w) => Ok(QueryResponse::BidWinner(w)),
            Err(e) => Err(e),
        },
    }
}

} // verus!
