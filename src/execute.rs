//! The operations that change an auction: bidding, closing and retracting.
use vstd::prelude::*;

use crate::commission::commission;
use crate::error::ContractError;
use crate::laws::lemma_step_wf;
use crate::model::{
    bid_outcome, close_outcome, retract_outcome, stored, Action, AuctionState, Call, Payout,
};
use crate::msg::opt_view;
use crate::state::{coins_view, BidStatus, Ledger, MessageInfo, Transfer};

verus! {

/// `r` and the state `after` are what `outcome` prescribes for the state
/// `before`: the new state and its transfer on success, the same state and
/// the same error on failure.
pub open spec fn follows(
    outcome: Result<(AuctionState, Payout), ContractError>,
    before: AuctionState,
    after: AuctionState,
    r: Result<Transfer, ContractError>,
) -> bool {
    match outcome {
        Ok((s, p)) => after == s && (r matches Ok(t) && t.pays(p, before.denom)),
        Err(e) => after == before && r == Err::<Transfer, ContractError>(e),
    }
}

/// The sender's new total fits in 128 bits whatever the commission.
pub open spec fn bid_fits(s: AuctionState, info: &MessageInfo) -> bool {
    info.funds@.len() == 1 ==> stored(s.bids, info.sender@) + info.funds@[0].amount <= u128::MAX
}

/// Places a bid of the single attached coin for the sender.
///
/// Refused, in this order, when the sender is the owner, the auction is
/// closed, not exactly one coin is attached, or it has the wrong denomination;
/// then when the sender's new net total does not beat the winning total, or
/// the sender already holds it. On success the sender becomes the winner with
/// the new total and the commission is sent to the owner.
pub fn bid(ledger: &mut Ledger, info: &MessageInfo) -> (r: Result<Transfer, ContractError>)
    requires
        old(ledger)@.wf(),
        bid_fits(old(ledger)@, info),
    ensures
        final(ledger)@.wf(),
        follows(
            bid_outcome(old(ledger)@, info.sender@, coins_view(info.funds@)),
            old(ledger)@,
            final(ledger)@,
            r,
        ),
{
    let ghost call = Call {
        sender: info.sender@,
        funds: coins_view(info.funds@),
        action: Action::Bid,
    };
    proof {
        lemma_step_wf(ledger@, call);
    }
    let cfg = ledger.config();
    if info.sender == cfg.contract_owner {
        return Err(ContractError::Unauthorized {  });
    }
    if cfg.status != BidStatus::Opened {
        return Err(ContractError::BidClosed {  });
    }
    if info.funds.len() != 1 {
        return Err(ContractError::TooManyOrLittleNativeTokensSent {  });
    }
    let coin = &info.funds[0];
    assert(coins_view(info.funds@)[0] == coin@);
    if !(coin.denom == cfg.denom) {
        return Err(ContractError::WrongDenom {  });
    }
    let (fee, net) = commission(coin.amount, cfg.commission);
    let owner = cfg.contract_owner.clone();
    let denom = cfg.denom.clone();
    let total = ledger.total_of(&info.sender) + net;
    let winner = ledger.winner();
    if total <= winner.1 {
        return Err(ContractError::BidTooLow {  });
    }
    if winner.0 == info.sender {
        return Err(ContractError::YouAreTheHighestBidder {  });
    }
    ledger.record_bid(&info.sender, total);
    Ok(Transfer { to_address: owner, denom, amount: fee })
}

/// Closes the auction and sends the winning total to the owner.
///
/// Refused when the sender is not the owner, then when already closed. The
/// winner's entry is left as a record; the winner can never retract it.
pub fn close(ledger: &mut Ledger, info: &MessageInfo) -> (r: Result<Transfer, ContractError>)
    requires
        old(ledger)@.wf(),
    ensures
        final(ledger)@.wf(),
        follows(close_outcome(old(ledger)@, info.sender@), old(ledger)@, final(ledger)@, r),
{
    let ghost call = Call {
        sender: info.sender@,
        funds: coins_view(info.funds@),
        action: Action::Close,
    };
    proof {
        lemma_step_wf(ledger@, call);
    }
    let cfg = ledger.config();
    if !(info.sender == cfg.contract_owner) {
        return Err(ContractError::Unauthorized {  });
    }
    if cfg.status != BidStatus::Opened {
        return Err(ContractError::BidClosed {  });
    }
    let owner = cfg.contract_owner.clone();
    let denom = cfg.denom.clone();
    let amount = ledger.winner().1;
    ledger.mark_closed();
    Ok(Transfer { to_address: owner, denom, amount })
}

/// Hands the sender's escrowed total to `receiver`, or to the sender when
/// there is none, and zeroes the sender's entry.
///
/// Refused while the auction is open, then for the winner, then when the
/// sender has nothing escrowed (never bid, or already retracted).
pub fn retract(ledger: &mut Ledger, info: &MessageInfo, receiver: Option<String>) -> (r: Result<
    Transfer,
    ContractError,
>)
    requires
        old(ledger)@.wf(),
    ensures
        final(ledger)@.wf(),
        follows(
            retract_outcome(old(ledger)@, info.sender@, opt_view(receiver)),
            old(ledger)@,
            final(ledger)@,
            r,
        ),
{
    let ghost call = Call {
        sender: info.sender@,
        funds: coins_view(info.funds@),
        action: Action::Retract { receiver: opt_view(receiver) },
    };
    proof {
        lemma_step_wf(ledger@, call);
    }
    let cfg = ledger.config();
    if cfg.status != BidStatus::Closed {
        return Err(ContractError::BidStillOpen {  });
    }
    let denom = cfg.denom.clone();
    if ledger.winner().0 == info.sender {
        return Err(ContractError::WinnerCannotRetractBid {  });
    }
    let amount = ledger.total_of(&info.sender);
    if amount == 0 {
        return Err(ContractError::NothingToRetract {  });
    }
    let to_address = match receiver {
        Some(r) => r,
        None => info.sender.clone(),
    };
    ledger.clear_total(&info.sender);
    Ok(Transfer { to_address, denom, amount })
}

} // verus!
