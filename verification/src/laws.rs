//! The laws of the auction: properties that hold of every reachable
//! well-formed state and of every sequence of operations, stated over the
//! same spec functions the operations' contracts use.

use crate::contract::execute::{close_check, retract_check, retract_post};
use crate::error::BidError;
use crate::msg::BankTransfer;
use crate::state::AuctionState;
use vstd::prelude::*;

verus! {

/// The leading amount is the maximum cumulative deposit over all recorded
/// participants, and, as soon as anyone has deposited, the leading address
/// is a participant achieving it.
pub proof fn lemma_leader_is_max(s: AuctionState)
    requires
        s.wf(),
    ensures
        forall|a: Seq<char>| #[trigger] s.spec_has(a) ==> s.spec_total(a) <= s.highest_bid.bid,
        s.bidders@.len() > 0 ==> s.highest_bid.bid > 0 && s.spec_has(s.highest_bid.address@)
            && s.spec_total(s.highest_bid.address@) == s.highest_bid.bid,
{
    assert forall|a: Seq<char>| #[trigger] s.spec_has(a) implies s.spec_total(a)
        <= s.highest_bid.bid by {
        let j = s.idx_of(a);
        assert(0 <= j < s.bidders@.len() && s.bidders@[j].address@ == a);
        assert(s.record_ok(s.bidders@[j]));
    }
    if s.bidders@.len() > 0 {
        assert(s.record_ok(s.bidders@[0]));
    }
}

/// Every recorded participant's escrow covers all the commissions its
/// accepted deposits owe, so no settlement or retraction can underflow.
pub proof fn lemma_commission_covered(s: AuctionState, a: Seq<char>)
    requires
        s.wf(),
        s.spec_has(a),
    ensures
        s.spec_count(a) * s.config.commission <= s.spec_total(a),
        1 <= s.spec_count(a),
{
    let j = s.idx_of(a);
    assert(0 <= j < s.bidders@.len() && s.bidders@[j].address@ == a);
    assert(s.record_ok(s.bidders@[j]));
}

/// Closing is the operator's alone: any other caller is refused with
/// `Unauthorized` (and, by `close`'s contract, leaves the state untouched),
/// while the operator's first close is owed success.
pub proof fn lemma_close_operator_only(s: AuctionState, sender: Seq<char>)
    requires
        s.wf(),
    ensures
        sender != s.config.owner@ ==> close_check(s, sender) == Some(
            BidError::Unauthorized {},
        ),
        sender == s.config.owner@ && !s.is_bidding_closed ==> close_check(s, sender) is None,
{
}

/// After closing an auction that saw at least one deposit, a retraction by
/// the recorded winner is always refused with `WinnerCantRetract`: the
/// winner's escrow is settled exclusively through closing.
pub proof fn lemma_winner_cannot_retract(s: AuctionState, a: Seq<char>)
    requires
        s.wf(),
        s.is_bidding_closed,
        s.highest_bid.bid > 0,
        s.bid_winner matches Some(w) && w@ == a,
    ensures
        retract_check(s, a) == Some(BidError::WinnerCantRetract {}),
{
}

/// After closing, any recorded participant other than the winner is owed a
/// successful retraction.
pub proof fn lemma_non_winner_can_retract(s: AuctionState, a: Seq<char>)
    requires
        s.wf(),
        s.is_bidding_closed,
        s.spec_has(a),
        a != s.highest_bid.address@,
    ensures
        retract_check(s, a) is None,
{
}

/// Retraction happens exactly once: in any state left by a successful
/// retraction, a second attempt by the same caller is refused with
/// `NothingToRetract`.
pub proof fn lemma_retract_exactly_once(
    pre: AuctionState,
    post: AuctionState,
    sender: Seq<char>,
    receiver: Option<String>,
    r: Result<BankTransfer, BidError>,
)
    requires
        pre.wf(),
        retract_check(pre, sender) is None,
        retract_post(pre, post, sender, receiver, r),
    ensures
        r is Ok,
        retract_check(post, sender) == Some(BidError::NothingToRetract {}),
{
}

/// The operator can never hold a deposit record: deposits by the operator
/// are rejected before any record is written, so its identity never appears
/// as a key.
pub proof fn lemma_operator_never_deposits(s: AuctionState)
    requires
        s.wf(),
    ensures
        !s.spec_has(s.config.owner@),
{
    if s.spec_has(s.config.owner@) {
        let j = s.idx_of(s.config.owner@);
        assert(0 <= j < s.bidders@.len() && s.bidders@[j].address@ == s.config.owner@);
        assert(s.record_ok(s.bidders@[j]));
    }
}

} // verus!
