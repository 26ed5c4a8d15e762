//! The read-only projections over the auction state.

use crate::msg::{BidQueryAnswer, BidQueryMsg};
use crate::state::{find_bidder_index, lemma_at_index, AuctionState, HighestBid};
use vstd::prelude::*;

verus! {

/// Dispatch one read-only call to its projection. `None` stands for the
/// one fault a query can meet: asking the total of an identity that holds
/// no deposit record.
pub fn _query(state: &AuctionState, msg: BidQueryMsg) -> (r: Option<BidQueryAnswer>)
    requires
        state.wf(),
    ensures
        match msg {
            BidQueryMsg::GetTotalBidAddr { address } => match r {
                Some(BidQueryAnswer::TotalBid(total)) => state.spec_has(address@) && total
                    == state.spec_total(address@),
                None => !state.spec_has(address@),
                _ => false,
            },
            BidQueryMsg::GetHighestBid {  } => (r matches Some(BidQueryAnswer::Highest(h)) && h
                == state.highest_bid),
            BidQueryMsg::GetWinningBidder {  } => (r matches Some(
                BidQueryAnswer::WinningBidder(w),
            ) && (state.is_bidding_closed ==> w@ == state.highest_bid.address@) && (
            !state.is_bidding_closed ==> w@ == "nowinneryet"@)),
            BidQueryMsg::GetAcceptedDenom {  } => (r matches Some(
                BidQueryAnswer::AcceptedDenom(d),
            ) && d@ == state.config.accepted_token.denom@),
            BidQueryMsg::IsBiddingClosed {  } => r == Some(
                BidQueryAnswer::BiddingClosed(state.is_bidding_closed),
            ),
        },
{
    match msg {
        BidQueryMsg::GetTotalBidAddr { address } => match get_total_bid_addr(state, &address) {
            Some(total) => Some(BidQueryAnswer::TotalBid(total)),
            None => None,
        },
        BidQueryMsg::GetHighestBid {  } => Some(BidQueryAnswer::Highest(get_highest_bid(state))),
        BidQueryMsg::GetWinningBidder {  } => Some(
            BidQueryAnswer::WinningBidder(get_winning_bider(state)),
        ),
        BidQueryMsg::GetAcceptedDenom {  } => Some(
            BidQueryAnswer::AcceptedDenom(get_accepted_denom(state)),
        ),
        BidQueryMsg::IsBiddingClosed {  } => Some(
            BidQueryAnswer::BiddingClosed(is_bidding_closed(state)),
        ),
    }
}

/// The cumulative amount deposited by `address_to_check`, or `None` when that
/// identity holds no deposit record.
pub fn get_total_bid_addr(state: &AuctionState, address_to_check: &String) -> (r: Option<u128>)
    requires
        state.wf(),
    ensures
        match r {
            Some(total) => state.spec_has(address_to_check@)
                && total == state.spec_total(address_to_check@),
            None => !state.spec_has(address_to_check@),
        },
{
    match find_bidder_index(&state.bidders, address_to_check) {
        Some(i) => {
            proof {
                lemma_at_index(*state, i as int);
            }
            Some(state.bidders[i].amount)
        },
        None => None,
    }
}

/// The current leading record, verbatim; after closing it is the winner's.
pub fn get_highest_bid(state: &AuctionState) -> (r: HighestBid)
    ensures
        r == state.highest_bid,
{
    HighestBid { address: state.highest_bid.address.clone(), bid: state.highest_bid.bid }
}

/// The recorded winner once the auction is closed; before that, the sentinel
/// `"nowinneryet"` (a well-defined answer, not a fault).
pub fn get_winning_bider(state: &AuctionState) -> (r: String)
    requires
        state.wf(),
    ensures
        state.is_bidding_closed ==> r@ == state.highest_bid.address@,
        !state.is_bidding_closed ==> r@ == "nowinneryet"@,
{
    if state.is_bidding_closed {
        match &state.bid_winner {
            Some(w) => w.clone(),
            None => {
                // Unreachable: a closed auction always has a recorded winner.
                proof {
                    assert(false);
                }
                String::new()
            },
        }
    } else {
        "nowinneryet".to_string()
    }
}

/// The denomination the auction accepts.
pub fn get_accepted_denom(state: &AuctionState) -> (r: String)
    ensures
        r@ == state.config.accepted_token.denom@,
{
    state.config.accepted_token.denom.clone()
}

/// Whether closing has happened.
pub fn is_bidding_closed(state: &AuctionState) -> (r: bool)
    ensures
        r == state.is_bidding_closed,
{
    state.is_bidding_closed
}

} // verus!
