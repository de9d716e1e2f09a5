//! The requests, queries and answers of the auction.
use vstd::prelude::*;

use crate::commission::{DEFAULT_COMMISSION, RATE_SCALE};
use crate::error::ContractError;
use crate::model::name_is_valid;

verus! {

/// The parameters of a new auction. The owner defaults to the creator and
/// the commission to `DEFAULT_COMMISSION`.
#[derive(Debug, Clone, Default)]
pub struct InstantiateMsg {
    pub commodity: String,
    pub contract_owner: Option<String>,
    pub commision: Option<u128>,
}

/// An optional string, as the model sees it.
pub open spec fn opt_view(o: Option<String>) -> Option<Seq<char>> {
    match o {
        Some(s) => Some(s@),
        None => None,
    }
}

/// An optional rate, as the model sees it.
pub open spec fn opt_nat(o: Option<u128>) -> Option<nat> {
    match o {
        Some(n) => Some(n as nat),
        None => None,
    }
}

impl InstantiateMsg {
    /// The commission rate this message asks for.
    pub open spec fn rate(&self) -> nat {
        match self.commision {
            Some(r) => r as nat,
            None => DEFAULT_COMMISSION as nat,
        }
    }

    /// Checks the commodity name first, then the commission rate.
    pub fn validate(&self) -> (r: Result<(), ContractError>)
        ensures
            r is Ok <==> (name_is_valid(self.commodity@) && self.rate() <= RATE_SCALE),
            !name_is_valid(self.commodity@) ==> r == Err::<(), ContractError>(
                ContractError::InvalidCommodityName {  },
            ),
            name_is_valid(self.commodity@) && self.rate() > RATE_SCALE ==> r == Err::<
                (),
                ContractError,
            >(ContractError::InvalidCommission {  }),
    {
        if !self.has_valid_name() {
            return Err(ContractError::InvalidCommodityName {  });
        }
        let rate = match self.commision {
            Some(r) => r,
            None => DEFAULT_COMMISSION,
        };
        if rate > RATE_SCALE {
            return Err(ContractError::InvalidCommission {  });
        }
        Ok(())
    }

    /// Whether the commodity name takes 3 to 50 bytes in UTF-8.
    pub fn has_valid_name(&self) -> (r: bool)
        ensures
            r == name_is_valid(self.commodity@),
    {
        let len = self.commodity.as_str().as_bytes().len();
        3 <= len && len <= 50
    }
}

/// The operations that change an auction.
#[derive(Debug, Clone, PartialEq, Eq)]
pub enum ExecuteMsg {
    /// Adds the single attached coin, less commission, to the sender's total.
    Bid {},
    /// Ends the auction; only the owner may.
    Close {},
    /// Hands a losing party's total back, to `receiver` or to the party itself.
    Retract { receiver: Option<String> },
}

/// The read-only questions about an auction.
#[derive(Debug, Clone, PartialEq, Eq)]
pub enum QueryMsg {
    /// The net total escrowed by `address`, 0 if unset.
    TotalBid { address: String },
    /// The highest bidder and its net total.
    HighestBidder {},
    /// Whether the auction is closed.
    IsBidClosed {},
    /// The settled winner; an error while the auction is open.
    BidWinner {},
}

/// The answer to `QueryMsg::TotalBid`.
#[derive(Debug, Clone, PartialEq, Eq)]
pub struct TotalBidResponse {
    pub total_bid: u128,
}

/// The answer to `QueryMsg::HighestBidder`.
#[derive(Debug, Clone, PartialEq, Eq)]
pub struct HighestBidderResponse {
    pub addr: String,
    pub total_bid: u128,
}

/// The answer to `QueryMsg::IsBidClosed`.
#[derive(Debug, Clone, PartialEq, Eq)]
pub struct IsBidClosedResponse {
    pub is_closed: bool,
}

/// The answer to `QueryMsg::BidWinner`.
#[derive(Debug, Clone, PartialEq, Eq)]
pub struct BidWinnerResponse {
    pub winner: String,
}

/// The answer to any query.
#[derive(Debug, Clone, PartialEq, Eq)]
pub enum QueryResponse {
    TotalBid(TotalBidResponse),
    HighestBidder(HighestBidderResponse),
    IsBidClosed(IsBidClosedResponse),
    BidWinner(BidWinnerResponse),
}

} // verus!
