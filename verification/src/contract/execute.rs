//! The mutating operations: deposit, close, retract, and their dispatcher.

use crate::error::BidError;
use crate::msg::{BankTransfer, BidExecuteMsg};
use crate::state::{
    find_bidder_index, lemma_at_index, lemma_push_record, lemma_remove_record,
    lemma_update_record, AuctionState, BidderRecord, CoinValue, HighestBid,
};
use vstd::prelude::*;

verus! {

/// The amount of the first coin with denomination `denom` at or after
/// position `i` of the attached funds.
pub open spec fn first_accepted_from(funds: Seq<CoinValue>, denom: Seq<char>, i: int) -> Option<
    u128,
>
    decreases funds.len() - i,
{
    if i < 0 || i >= funds.len() {
        None
    } else if funds[i].denom@ == denom {
        Some(funds[i].amount)
    } else {
        first_accepted_from(funds, denom, i + 1)
    }
}

/// The amount this call deposits: the first attached coin in the accepted
/// denomination, if there is one. Coins in other denominations are ignored.
pub open spec fn spec_first_accepted(funds: Seq<CoinValue>, denom: Seq<char>) -> Option<u128> {
    first_accepted_from(funds, denom, 0)
}

/// What `sender`'s cumulative total would become if `inc` more were accepted
/// (as an unbounded integer, so it is meaningful even past the machine range).
pub open spec fn spec_new_total(s: AuctionState, sender: Seq<char>, inc: u128) -> int {
    inc + if s.spec_has(sender) {
        s.spec_total(sender) as int
    } else {
        0
    }
}

/// The failure a deposit meets, if any, with the checks in their fixed order:
/// the auction must be open, the operator may not bid, the attached funds
/// must contain the accepted denomination, the attached amount must cover one
/// commission, and the new cumulative total must strictly beat the leader.
pub open spec fn bid_check(s: AuctionState, sender: Seq<char>, funds: Seq<CoinValue>) -> Option<
    BidError,
> {
    if s.is_bidding_closed {
        Some(BidError::BiddingClosed {})
    } else if sender == s.config.owner@ {
        Some(BidError::OwnerCantBid {})
    } else {
        match spec_first_accepted(funds, s.config.accepted_token.denom@) {
            None => Some(BidError::WrongToken {}),
            Some(inc) => if inc < s.config.commission {
                Some(BidError::BidUnderCommission {})
            } else if spec_new_total(s, sender, inc) <= s.highest_bid.bid {
                Some(BidError::BidTooLow {})
            } else {
                None
            },
        }
    }
}

/// Machine-limit bound on a deposit: whenever the validation checks up to the
/// commission check pass, the new cumulative total must be representable.
/// The host refuses a call that would overflow the ledger's amount range, so
/// such a call never reaches this transition.
pub open spec fn bid_sum_fits(s: AuctionState, sender: Seq<char>, funds: Seq<CoinValue>) -> bool {
    match spec_first_accepted(funds, s.config.accepted_token.denom@) {
        Some(inc) => (!s.is_bidding_closed && sender != s.config.owner@ && inc
            >= s.config.commission) ==> spec_new_total(s, sender, inc) <= u128::MAX,
        None => true,
    }
}

/// Everything a deposit guarantees, relating the state before (`pre`) and
/// after (`post`) the call to its result.
///
/// On failure the state is untouched and no transfer is instructed. On
/// success the caller becomes the leader with its new cumulative total, its
/// record is created at count 1 or its count incremented, every other record
/// is untouched, and exactly one commission is instructed to the operator.
pub open spec fn bid_post(
    pre: AuctionState,
    post: AuctionState,
    sender: Seq<char>,
    funds: Seq<CoinValue>,
    r: Result<BankTransfer, BidError>,
) -> bool {
    match bid_check(pre, sender, funds) {
        Some(e) => r == Err::<BankTransfer, BidError>(e) && post == pre,
        None => {
            let inc = spec_first_accepted(funds, pre.config.accepted_token.denom@).unwrap();
            let total = spec_new_total(pre, sender, inc);
            &&& (r matches Ok(t) && t.to_address@ == pre.config.owner@ && t.amount
                == pre.config.commission && t.denom@ == pre.config.accepted_token.denom@)
            &&& post.highest_bid.address@ == sender
            &&& post.highest_bid.bid == total
            &&& post.spec_has(sender)
            &&& post.spec_total(sender) == total
            &&& post.spec_count(sender) == if pre.spec_has(sender) {
                pre.spec_count(sender) + 1
            } else {
                1
            }
            &&& forall|a: Seq<char>|
                a != sender ==> (#[trigger] post.spec_has(a) <==> pre.spec_has(a))
            &&& forall|a: Seq<char>|
                a != sender && pre.spec_has(a) ==> #[trigger] post.spec_total(a)
                    == pre.spec_total(a) && post.spec_count(a) == pre.spec_count(a)
            &&& post.config == pre.config
            &&& post.is_bidding_closed == pre.is_bidding_closed
            &&& post.bid_winner == pre.bid_winner
        },
    }
}

/// Deposit ("bid"): accumulate the attached accepted amount into the
/// caller's running total and take the lead, or fail without any effect.
///
/// A commission is owed once per accepted deposit, so the returned transfer
/// instructs exactly one commission to the operator; a rejected deposit pays
/// none.
pub fn bid(state: &mut AuctionState, sender: String, funds: &Vec<CoinValue>) -> (r: Result<
    BankTransfer,
    BidError,
>)
    requires
        old(state).wf(),
        bid_sum_fits(*old(state), sender@, funds@),
    ensures
        final(state).wf(),
        bid_post(*old(state), *final(state), sender@, funds@, r),
        final(state).highest_bid.bid >= old(state).highest_bid.bid,
{
    if state.is_bidding_closed {
        return Err(BidError::BiddingClosed {});
    }
    if sender == state.config.owner {
        return Err(BidError::OwnerCantBid {});
    }
    let current_bid = match find_accepted_amount(funds, &state.config.accepted_token.denom) {
        None => {
            return Err(BidError::WrongToken {});
        },
        Some(a) => a,
    };
    if current_bid < state.config.commission {
        return Err(BidError::BidUnderCommission {});
    }
    let opt_idx = find_bidder_index(&state.bidders, &sender);
    let total_current_bid = match opt_idx {
        Some(i) => {
            proof {
                lemma_at_index(*state, i as int);
            }
            current_bid + state.bidders[i].amount
        },
        None => {
            proof {
                if state.spec_has(sender@) {
                    let j = state.idx_of(sender@);
                    assert(state.bidders@[j].address@ == sender@);
                }
            }
            current_bid
        },
    };
    if state.highest_bid.bid >= total_current_bid {
        return Err(BidError::BidTooLow {});
    }
    let ghost pre = *state;
    state.highest_bid = HighestBid { address: sender.clone(), bid: total_current_bid };
    match opt_idx {
        Some(i) => {
            let old_rec = state.bidders.remove(i);
            let new_count = old_rec.count + 1;
            let new_rec = BidderRecord {
                address: old_rec.address,
                amount: total_current_bid,
                count: new_count,
            };
            state.bidders.insert(i, new_rec);
            proof {
                assert(state.bidders@ =~= pre.bidders@.update(i as int, new_rec));
                lemma_update_record(pre, *state, i as int, new_rec);
                let c = old_rec.count as int;
                let k = pre.config.commission as int;
                assert((c + 1) * k == c * k + k) by (nonlinear_arith);
                assert(state.wf());
            }
        },
        None => {
            let new_rec = BidderRecord { address: sender, amount: current_bid, count: 1 };
            state.bidders.push(new_rec);
            proof {
                lemma_push_record(pre, *state, new_rec);
                let k = pre.config.commission as int;
                assert(1 * k == k) by (nonlinear_arith);
                assert(state.wf());
            }
        },
    }
    Ok(
        BankTransfer {
            to_address: state.config.owner.clone(),
            amount: state.config.commission,
            denom: state.config.accepted_token.denom.clone(),
        },
    )
}

/// The failure a close meets, if any: only the operator may close, and only
/// once.
pub open spec fn close_check(s: AuctionState, sender: Seq<char>) -> Option<BidError> {
    if sender != s.config.owner@ {
        Some(BidError::Unauthorized {})
    } else if s.is_bidding_closed {
        Some(BidError::BiddingClosed {})
    } else {
        None
    }
}

/// Everything a close guarantees. On success the leader at this moment is
/// recorded as the permanent winner, bidding is frozen, and, when anything
/// was deposited at all, the winner's net proceeds (its cumulative deposit
/// minus the commissions its accepted deposits owe) are instructed to the
/// operator.
pub open spec fn close_post(
    pre: AuctionState,
    post: AuctionState,
    sender: Seq<char>,
    r: Result<Option<BankTransfer>, BidError>,
) -> bool {
    match close_check(pre, sender) {
        Some(e) => r == Err::<Option<BankTransfer>, BidError>(e) && post == pre,
        None => {
            &&& post.is_bidding_closed
            &&& (post.bid_winner matches Some(w) && w@ == pre.highest_bid.address@)
            &&& post.highest_bid == pre.highest_bid
            &&& post.bidders == pre.bidders
            &&& post.config == pre.config
            &&& (pre.highest_bid.bid > 0 ==> (r matches Ok(t) && t matches Some(tr)
                && tr.to_address@ == pre.config.owner@ && tr.amount == pre.highest_bid.bid
                    - pre.spec_count(pre.highest_bid.address@) * pre.config.commission
                && tr.denom@ == pre.config.accepted_token.denom@))
            &&& (pre.highest_bid.bid == 0 ==> r == Ok::<Option<BankTransfer>, BidError>(None))
        },
    }
}

/// Close: freeze bidding, record the current leader as the winner, and
/// settle the winner's net proceeds to the operator (nothing moves when no
/// deposit was ever accepted).
pub fn close(state: &mut AuctionState, sender: String) -> (r: Result<
    Option<BankTransfer>,
    BidError,
>)
    requires
        old(state).wf(),
    ensures
        final(state).wf(),
        close_post(*old(state), *final(state), sender@, r),
{
    if sender != state.config.owner {
        return Err(BidError::Unauthorized {});
    }
    if state.is_bidding_closed {
        return Err(BidError::BiddingClosed {});
    }
    state.bid_winner = Some(state.highest_bid.address.clone());
    state.is_bidding_closed = true;
    if state.highest_bid.bid > 0 {
        match find_bidder_index(&state.bidders, &state.highest_bid.address) {
            Some(i) => {
                proof {
                    lemma_at_index(*state, i as int);
                }
                let fee = state.bidders[i].count * state.config.commission;
                let amount_to_send = state.highest_bid.bid - fee;
                Ok(
                    Some(
                        BankTransfer {
                            to_address: state.config.owner.clone(),
                            amount: amount_to_send,
                            denom: state.config.accepted_token.denom.clone(),
                        },
                    ),
                )
            },
            None => {
                // Unreachable: a positive leading amount is some record's
                // cumulative deposit, so the lookup cannot miss.
                proof {
                    let j = state.idx_of(state.highest_bid.address@);
                    assert(state.bidders@[j].address@ == state.highest_bid.address@);
                    assert(false);
                }
                Ok(None)
            },
        }
    } else {
        Ok(None)
    }
}

/// The failure a retraction meets, if any: the auction must be closed, the
/// caller must hold a deposit record, and the recorded winner's escrow is
/// settled exclusively through close, never returned here.
pub open spec fn retract_check(s: AuctionState, sender: Seq<char>) -> Option<BidError> {
    if !s.is_bidding_closed {
        Some(BidError::BiddingNotClose {})
    } else if !s.spec_has(sender) {
        Some(BidError::NothingToRetract {})
    } else if s.highest_bid.address@ == sender {
        Some(BidError::WinnerCantRetract {})
    } else {
        None
    }
}

/// Where a retraction pays out: a caller-chosen recipient, or the caller.
pub open spec fn spec_receiver(sender: Seq<char>, receiver: Option<String>) -> Seq<char> {
    match receiver {
        Some(rcv) => rcv@,
        None => sender,
    }
}

/// Everything a retraction guarantees. On success the caller's whole
/// remaining escrow, minus the commissions its accepted deposits owe, is
/// instructed to the resolved recipient, and the caller's record is deleted
/// so a second retraction finds nothing.
pub open spec fn retract_post(
    pre: AuctionState,
    post: AuctionState,
    sender: Seq<char>,
    receiver: Option<String>,
    r: Result<BankTransfer, BidError>,
) -> bool {
    match retract_check(pre, sender) {
        Some(e) => r == Err::<BankTransfer, BidError>(e) && post == pre,
        None => {
            &&& (r matches Ok(t) && t.to_address@ == spec_receiver(sender, receiver) && t.amount
                == pre.spec_total(sender) - pre.spec_count(sender) * pre.config.commission
                && t.denom@ == pre.config.accepted_token.denom@)
            &&& !post.spec_has(sender)
            &&& forall|a: Seq<char>|
                a != sender ==> (#[trigger] post.spec_has(a) <==> pre.spec_has(a))
            &&& forall|a: Seq<char>|
                a != sender && pre.spec_has(a) ==> #[trigger] post.spec_total(a)
                    == pre.spec_total(a) && post.spec_count(a) == pre.spec_count(a)
            &&& post.config == pre.config
            &&& post.highest_bid == pre.highest_bid
            &&& post.is_bidding_closed == pre.is_bidding_closed
            &&& post.bid_winner == pre.bid_winner
        },
    }
}

/// Retract: return a non-winning participant's net escrow to a caller-chosen
/// recipient (the caller itself by default) and delete its record, so the
/// reclamation can happen exactly once.
pub fn retract(state: &mut AuctionState, sender: String, receiver: Option<String>) -> (r: Result<
    BankTransfer,
    BidError,
>)
    requires
        old(state).wf(),
    ensures
        final(state).wf(),
        retract_post(*old(state), *final(state), sender@, receiver, r),
{
    if !state.is_bidding_closed {
        return Err(BidError::BiddingNotClose {});
    }
    let i = match find_bidder_index(&state.bidders, &sender) {
        None => {
            proof {
                if state.spec_has(sender@) {
                    let j = state.idx_of(sender@);
                    assert(state.bidders@[j].address@ == sender@);
                }
            }
            return Err(BidError::NothingToRetract {});
        },
        Some(i) => i,
    };
    proof {
        lemma_at_index(*state, i as int);
    }
    if state.highest_bid.address == sender {
        return Err(BidError::WinnerCantRetract {});
    }
    let fee = state.bidders[i].count * state.config.commission;
    let token_to_send = state.bidders[i].amount - fee;
    let token_receiver = match receiver {
        Some(rcv) => rcv,
        None => sender.clone(),
    };
    let ghost pre = *state;
    state.bidders.remove(i);
    proof {
        lemma_remove_record(pre, *state, i as int);
        if state.highest_bid.bid > 0 {
            assert(pre.spec_has(state.highest_bid.address@));
        }
        assert(state.wf());
    }
    Ok(
        BankTransfer {
            to_address: token_receiver,
            amount: token_to_send,
            denom: state.config.accepted_token.denom.clone(),
        },
    )
}

/// Dispatch one mutating call to its operation, collecting the transfers it
/// instructs into the ordered list to execute atomically with the new state.
pub fn _execute(
    state: &mut AuctionState,
    sender: String,
    funds: &Vec<CoinValue>,
    msg: BidExecuteMsg,
) -> (r: Result<Vec<BankTransfer>, BidError>)
    requires
        old(state).wf(),
        msg is Bid ==> bid_sum_fits(*old(state), sender@, funds@),
    ensures
        final(state).wf(),
        match msg {
            BidExecuteMsg::Bid {  } => match r {
                Ok(ts) => ts@.len() == 1 && bid_post(
                    *old(state),
                    *final(state),
                    sender@,
                    funds@,
                    Ok(ts@[0]),
                ),
                Err(e) => bid_post(*old(state), *final(state), sender@, funds@, Err(e)),
            },
            BidExecuteMsg::Close {  } => match r {
                Ok(ts) => (ts@.len() == 1 && close_post(
                    *old(state),
                    *final(state),
                    sender@,
                    Ok(Some(ts@[0])),
                )) || (ts@.len() == 0 && close_post(*old(state), *final(state), sender@, Ok(None))),
                Err(e) => close_post(*old(state), *final(state), sender@, Err(e)),
            },
            BidExecuteMsg::Retract { receiver } => match r {
                Ok(ts) => ts@.len() == 1 && retract_post(
                    *old(state),
                    *final(state),
                    sender@,
                    receiver,
                    Ok(ts@[0]),
                ),
                Err(e) => retract_post(*old(state), *final(state), sender@, receiver, Err(e)),
            },
        },
{
    match msg {
        BidExecuteMsg::Bid {  } => match bid(state, sender, funds) {
            Ok(t) => {
                let mut ts: Vec<BankTransfer> = Vec::new();
                ts.push(t);
                Ok(ts)
            },
            Err(e) => Err(e),
        },
        BidExecuteMsg::Close {  } => match close(state, sender) {
            Ok(Some(t)) => {
                let mut ts: Vec<BankTransfer> = Vec::new();
                ts.push(t);
                Ok(ts)
            },
            Ok(None) => Ok(Vec::new()),
            Err(e) => Err(e),
        },
        BidExecuteMsg::Retract { receiver } => match retract(state, sender, receiver) {
            Ok(t) => {
                let mut ts: Vec<BankTransfer> = Vec::new();
                ts.push(t);
                Ok(ts)
            },
            Err(e) => Err(e),
        },
    }
}

/// The amount of the first attached coin in the accepted denomination.
fn find_accepted_amount(funds: &Vec<CoinValue>, denom: &String) -> (r: Option<u128>)
    ensures
        r == spec_first_accepted(funds@, denom@),
{
    let n = funds.len();
    let mut i: usize = 0;
    while i < n
        invariant
            n == funds@.len(),
            i <= n,
            spec_first_accepted(funds@, denom@) == first_accepted_from(funds@, denom@, i as int),
        decreases n - i,
    {
        if funds[i].denom == *denom {
            return Some(funds[i].amount);
        }
        i = i + 1;
    }
    None
}

} // verus!
