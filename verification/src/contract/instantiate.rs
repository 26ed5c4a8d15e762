//! Instantiation: the one-time write of the configuration and the empty
//! leaderboard.

use crate::msg::BidInstantiateMsg;
use crate::state::{AuctionState, Config, HighestBid};
use vstd::prelude::*;

verus! {

/// Builds the initial state of a fresh auction.
///
/// The caller becomes the operator unless the message names one; the caller's
/// identity also seeds the leaderboard, with a leading amount of zero. The
/// auction starts open, with no deposit records and no winner. No funds move.
///
/// Identity validation of a named operator is the host's concern and happens
/// before this transition.
pub fn _instantiate(sender: String, msg: BidInstantiateMsg) -> (s: AuctionState)
    ensures
        s.wf(),
        s.config.owner@ == (match msg.owner {
            Some(o) => o@,
            None => sender@,
        }),
        s.config.commission == msg.commission,
        s.config.accepted_token == msg.accepted_token,
        s.highest_bid.address@ == sender@,
        s.highest_bid.bid == 0,
        s.bidders@.len() == 0,
        !s.is_bidding_closed,
        s.bid_winner is None,
{
    let owner = match msg.owner {
        Some(o) => o,
        None => sender.clone(),
    };
    AuctionState {
        config: Config { owner, commission: msg.commission, accepted_token: msg.accepted_token },
        highest_bid: HighestBid { address: sender, bid: 0 },
        bidders: Vec::new(),
        is_bidding_closed: false,
        bid_winner: None,
    }
}

} // verus!
