use vstd::prelude::*;

verus! {

/// Every way an operation of the auction can be refused.
///
/// A refused operation leaves the auction exactly as it was.
#[derive(Debug, Clone, Copy, PartialEq, Eq, Structural)]
pub enum ContractError {
    /// The owner tried to bid, or someone other than the owner tried to close.
    Unauthorized {},
    /// Not exactly one kind of coin was attached.
    TooManyOrLittleNativeTokensSent {},
    /// The attached coin is not the auction's denomination.
    WrongDenom {},
    /// The bidder's new net total does not exceed the current highest total.
    BidTooLow {},
    /// The bidder already holds the highest total.
    YouAreTheHighestBidder {},
    /// The auction is already closed.
    BidClosed {},
    /// The auction is still open.
    BidStillOpen {},
    /// The settled winner's funds went to the owner; they cannot be retracted.
    WinnerCannotRetractBid {},
    /// The party has no escrowed funds left.
    NothingToRetract {},
    /// The commodity name is not between 3 and 50 bytes long.
    InvalidCommodityName {},
    /// The commission rate is above one hundred percent.
    InvalidCommission {},
}

} // verus!
