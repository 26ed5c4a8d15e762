//! End-to-end walks through the auction, driving the state machine the way
//! the hosting environment would: every returned transfer instruction is
//! applied to a small hand-rolled bank so balances can be checked.

use bidding_contract::contract::execute::{bid, close, retract};
use bidding_contract::contract::instantiate::_instantiate;
use bidding_contract::contract::query::{
    get_accepted_denom, get_highest_bid, get_total_bid_addr, get_winning_bider,
    is_bidding_closed,
};
use bidding_contract::error::BidError;
use bidding_contract::msg::{BankTransfer, BidInstantiateMsg};
use bidding_contract::state::{AuctionState, CoinValue, HighestBid};

fn coins(amount: u128, denom: &str) -> Vec<CoinValue> {
    vec![CoinValue { denom: denom.to_string(), amount }]
}

fn instantiate_with(owner: &str, commission: u128, denom: &str) -> AuctionState {
    _instantiate(
        "instantiator".to_string(),
        BidInstantiateMsg {
            owner: Some(owner.to_string()),
            commission,
            accepted_token: CoinValue { denom: denom.to_string(), amount: 0 },
        },
    )
}

/// Applies a transfer instruction to the named balance, checking denomination.
fn apply(balance: &mut u128, who: &str, transfer: &BankTransfer, denom: &str) {
    assert_eq!(transfer.to_address, who);
    assert_eq!(transfer.denom, denom);
    *balance += transfer.amount;
}

#[test]
fn test_execute_full_workflow() {
    // Three bidders; every error first, then the lead changes hands until
    // bidder3 wins, and the others reclaim their escrow.
    let mut bidder1: u128 = 35;
    let mut bidder2: u128 = 20;
    let mut bidder3: u128 = 50;
    let mut owner: u128 = 5;
    let mut bidderpoor: u128 = 1;

    let mut state = instantiate_with("owner", 2, "atom");

    let err = bid(&mut state, "owner".to_string(), &coins(5, "atom")).unwrap_err();
    assert_eq!(BidError::OwnerCantBid {}, err);

    let err = bid(&mut state, "baddenom".to_string(), &coins(5, "notatom")).unwrap_err();
    assert_eq!(BidError::WrongToken {}, err);

    let err = bid(&mut state, "bidderpoor".to_string(), &coins(1, "atom")).unwrap_err();
    assert_eq!(BidError::BidUnderCommission {}, err);

    // First bid, verified with queries.
    let t = bid(&mut state, "bidder1".to_string(), &coins(10, "atom")).unwrap();
    bidder1 -= 10;
    apply(&mut owner, "owner", &t, "atom");

    let resp = get_total_bid_addr(&state, &"bidder1".to_string()).unwrap();
    assert_eq!(resp, 10u128);
    let resp = get_highest_bid(&state);
    assert_eq!(resp, HighestBid { address: "bidder1".to_string(), bid: 10 });

    // A bid that does not beat the leader is rejected.
    let resp = bid(&mut state, "bidder2".to_string(), &coins(10, "atom")).unwrap_err();
    assert_eq!(BidError::BidTooLow {}, resp);

    // Second and third bids, verifying state every time.
    let t = bid(&mut state, "bidder2".to_string(), &coins(20, "atom")).unwrap();
    bidder2 -= 20;
    apply(&mut owner, "owner", &t, "atom");
    let resp = get_total_bid_addr(&state, &"bidder2".to_string()).unwrap();
    assert_eq!(resp, 20u128);
    let resp = get_highest_bid(&state);
    assert_eq!(resp, HighestBid { address: "bidder2".to_string(), bid: 20 });

    let t = bid(&mut state, "bidder3".to_string(), &coins(25, "atom")).unwrap();
    bidder3 -= 25;
    apply(&mut owner, "owner", &t, "atom");
    let resp = get_total_bid_addr(&state, &"bidder3".to_string()).unwrap();
    assert_eq!(resp, 25u128);
    let resp = get_highest_bid(&state);
    assert_eq!(resp, HighestBid { address: "bidder3".to_string(), bid: 25 });

    // Fourth bid: the deposit already in escrow counts towards the total.
    let t = bid(&mut state, "bidder1".to_string(), &coins(20, "atom")).unwrap();
    bidder1 -= 20;
    apply(&mut owner, "owner", &t, "atom");
    let resp = get_total_bid_addr(&state, &"bidder1".to_string()).unwrap();
    assert_eq!(resp, 30u128);
    let resp = get_highest_bid(&state);
    assert_eq!(resp, HighestBid { address: "bidder1".to_string(), bid: 30 });

    // Fifth bid: the final leader.
    let t = bid(&mut state, "bidder3".to_string(), &coins(20, "atom")).unwrap();
    bidder3 -= 20;
    apply(&mut owner, "owner", &t, "atom");
    let resp = get_total_bid_addr(&state, &"bidder3".to_string()).unwrap();
    assert_eq!(resp, 45u128);
    let resp = get_highest_bid(&state);
    assert_eq!(resp, HighestBid { address: "bidder3".to_string(), bid: 45 });

    // Five accepted bids: ten in commission on top of the initial balance.
    assert_eq!(owner, 15);

    // Close.
    let settlement = close(&mut state, "owner".to_string()).unwrap();
    let t = settlement.expect("a positive leading bid settles to the operator");
    apply(&mut owner, "owner", &t, "atom");
    assert!(is_bidding_closed(&state));

    // No bids once closed.
    let err = bid(&mut state, "bidder1".to_string(), &coins(5, "atom")).unwrap_err();
    assert_eq!(BidError::BiddingClosed {}, err);

    // The winning bid of 45 minus 2 commissions of 2: 41 more, 56 in all.
    let resp = get_highest_bid(&state);
    assert_eq!(resp, HighestBid { address: "bidder3".to_string(), bid: 45 });
    assert_eq!(owner, 56);

    // Balances before the retractions.
    assert_eq!(bidder1, 5);
    assert_eq!(bidder2, 0);
    assert_eq!(bidder3, 5);

    // bidder1 deposited 30 in two bids: reclaims 30 - 2 x 2 = 26.
    let t = retract(&mut state, "bidder1".to_string(), None).unwrap();
    apply(&mut bidder1, "bidder1", &t, "atom");
    assert_eq!(bidder1, 31);

    // bidder2 deposited 20 in one bid and directs the payout elsewhere:
    // bidderpoor receives 20 - 2 x 1 = 18 on top of its 1.
    let t = retract(&mut state, "bidder2".to_string(), Some("bidderpoor".to_string())).unwrap();
    apply(&mut bidderpoor, "bidderpoor", &t, "atom");
    assert_eq!(bidder2, 0);
    assert_eq!(bidderpoor, 19);

    // The winner's escrow was settled at close; it cannot be retracted.
    let resp = retract(&mut state, "bidder3".to_string(), None).unwrap_err();
    assert_eq!(BidError::WinnerCantRetract {}, resp);
}

#[test]
fn test_query_bidding_closed() {
    let mut state = instantiate_with("owner", 5, "atom");

    assert!(!is_bidding_closed(&state));

    let resp = close(&mut state, "notowner".to_string()).unwrap_err();
    assert_eq!(BidError::Unauthorized {}, resp);

    close(&mut state, "owner".to_string()).unwrap();

    assert!(is_bidding_closed(&state));
}

#[test]
fn test_query_get_denom() {
    let state = instantiate_with("owner", 5, "atom");

    let resp = get_accepted_denom(&state);
    assert_eq!("atom".to_string(), resp);
}

#[test]
fn test_query_get_winning_bidder_instant_close() {
    let mut state = instantiate_with("owner", 5, "atom");

    let resp = get_winning_bider(&state);
    assert_eq!(resp, "nowinneryet");

    let settlement = close(&mut state, "owner".to_string()).unwrap();
    assert!(settlement.is_none(), "no deposits: nothing settles");

    let resp = get_winning_bider(&state);
    assert_eq!(resp, "instantiator");
}

#[test]
fn test_query_get_winning_bidder_bid_and_close() {
    let mut state = instantiate_with("owner", 1, "atom");

    bid(&mut state, "bidder".to_string(), &coins(4, "atom")).unwrap();

    close(&mut state, "owner".to_string()).unwrap();

    let resp = get_winning_bider(&state);
    assert_eq!(resp, "bidder");
}
