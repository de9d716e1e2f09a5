//! Read-only views of an auction.
use vstd::prelude::*;

use crate::error::ContractError;
use crate::model::stored;
use crate::msg::{BidWinnerResponse, HighestBidderResponse, IsBidClosedResponse, TotalBidResponse};
use crate::state::{BidStatus, Ledger};

verus! {

/// The current winner and its net total, open or closed.
pub fn highest_bid(ledger: &Ledger) -> (r: HighestBidderResponse)
    ensures
        r.addr@ == ledger@.winner,
        r.total_bid == ledger@.winning_total,
{
    let winner = ledger.winner();
    HighestBidderResponse { addr: winner.0.clone(), total_bid: winner.1 }
}

/// The net total escrowed by `addr`: 0 when it never bid or has retracted.
pub fn total_bid(ledger: &Ledger, addr: &String) -> (r: TotalBidResponse)
    ensures
        r.total_bid == stored(ledger@.bids, addr@),
{
    TotalBidResponse { total_bid: ledger.total_of(addr) }
}

/// Whether the auction is closed.
pub fn is_closed(ledger: &Ledger) -> (r: IsBidClosedResponse)
    ensures
        r.is_closed == ledger@.closed,
{
    match ledger.config().status {
        BidStatus::Closed => IsBidClosedResponse { is_closed: true },
        BidStatus::Opened => IsBidClosedResponse { is_closed: false },
    }
}

/// The settled winner; `BidStillOpen` until the auction is closed.
pub fn bid_winner(ledger: &Ledger) -> (r: Result<BidWinnerResponse, ContractError>)
    ensures
        ledger@.closed ==> (r matches Ok(w) && w.winner@ == ledger@.winner),
        !ledger@.closed ==> r == Err::<BidWinnerResponse, ContractError>(
            ContractError::BidStillOpen {  },
        ),
{
    if ledger.config().status != BidStatus::Closed {
        return Err(ContractError::BidStillOpen {  });
    }
    Ok(BidWinnerResponse { winner: ledger.winner().0.clone() })
}

} // verus!
