//! The call and response shapes of the auction, and the bank transfer
//! instructions its operations emit.

use crate::state::CoinValue;
use vstd::prelude::*;

verus! {

/// Parameters of instantiation.
#[derive(Debug, Clone, PartialEq, Eq)]
pub struct BidInstantiateMsg {
    /// The operator; defaults to the caller performing the instantiation.
    pub owner: Option<String>,
    /// Fee owed once per accepted deposit, in the accepted denomination.
    pub commission: u128,
    /// Only the denomination is read; the amount field is ignored.
    pub accepted_token: CoinValue,
}

/// The mutating operations.
#[derive(Debug, Clone, PartialEq, Eq)]
pub enum BidExecuteMsg {
    /// Deposit the attached funds and try to take the lead.
    Bid {},
    /// Close the auction and settle the winner's net proceeds.
    Close {},
    /// Reclaim a non-winning deposit, minus the commissions it owes.
    Retract { receiver: Option<String> },
}

/// The read-only projections over the state.
#[derive(Debug, Clone, PartialEq, Eq)]
pub enum BidQueryMsg {
    GetTotalBidAddr { address: String },
    GetHighestBid {},
    GetWinningBidder {},
    GetAcceptedDenom {},
    IsBiddingClosed {},
}

/// One read-only projection's answer, shaped after the query that asked it.
#[derive(Debug, Clone, PartialEq, Eq)]
pub enum BidQueryAnswer {
    TotalBid(u128),
    Highest(crate::state::HighestBid),
    WinningBidder(String),
    AcceptedDenom(String),
    BiddingClosed(bool),
}

/// Migration carries no parameters.
#[derive(Debug, Clone, PartialEq, Eq, Structural)]
pub struct BidMigrateMsg {}

/// An instruction to the external ledger: move `amount` of `denom` from the
/// auction's custody to `to_address`, atomically with the state transition
/// that produced it.
#[derive(Debug, Clone, PartialEq, Eq)]
pub struct BankTransfer {
    pub to_address: String,
    pub amount: u128,
    pub denom: String,
}

} // verus!
