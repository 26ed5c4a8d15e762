//! The persisted auction state and its well-formedness invariant.

use vstd::prelude::*;

verus! {

/// An amount of a single native token, tagged with its denomination.
#[derive(Debug, Clone, PartialEq, Eq)]
pub struct CoinValue {
    pub denom: String,
    pub amount: u128,
}

/// The fixed configuration, written once at instantiation.
#[derive(Debug, Clone, PartialEq, Eq)]
pub struct Config {
    /// The operator: collects commissions and settlement, may close, may not bid.
    pub owner: String,
    /// Fee charged once per accepted (leader-improving) deposit.
    pub commission: u128,
    /// Only the denomination of this coin matters; its amount is ignored.
    pub accepted_token: CoinValue,
}

/// The current leader: the participant with the highest cumulative deposit.
#[derive(Debug, Clone, PartialEq, Eq)]
pub struct HighestBid {
    pub address: String,
    pub bid: u128,
}

/// One participant's cumulative escrow and how many accepted deposits built it.
#[derive(Debug, Clone, PartialEq, Eq)]
pub struct BidderRecord {
    pub address: String,
    /// Cumulative amount deposited over all accepted deposits.
    pub amount: u128,
    /// Number of accepted deposits; each one owes one commission.
    pub count: u128,
}

/// The whole persisted state of one auction instance.
///
/// The host environment keeps this between calls; every operation of the
/// crate is a transition from one well-formed ([`AuctionState::wf`]) state
/// to another.
#[derive(Debug, Clone, PartialEq, Eq)]
pub struct AuctionState {
    pub config: Config,
    pub highest_bid: HighestBid,
    /// One record per participant with an outstanding deposit, unique by address.
    pub bidders: Vec<BidderRecord>,
    pub is_bidding_closed: bool,
    /// Present exactly when the auction is closed; the leader at closing time.
    pub bid_winner: Option<String>,
}

/// No two records share an address: the collection is keyed by identity.
pub open spec fn unique_addresses(bs: Seq<BidderRecord>) -> bool {
    forall|i: int, j: int|
        0 <= i < j < bs.len() ==> #[trigger] bs[i].address@ != #[trigger] bs[j].address@
}

impl AuctionState {
    /// Whether some participant with address `a` has an outstanding deposit record.
    pub open spec fn spec_has(self, a: Seq<char>) -> bool {
        exists|i: int| 0 <= i < self.bidders@.len() && self.bidders@[i].address@ == a
    }

    /// The index of `a`'s record; meaningful only when `spec_has(a)` holds
    /// (by well-formedness the index is then unique).
    pub open spec fn idx_of(self, a: Seq<char>) -> int {
        choose|i: int| 0 <= i < self.bidders@.len() && self.bidders@[i].address@ == a
    }

    /// `a`'s cumulative deposited amount; meaningful only when `spec_has(a)`.
    pub open spec fn spec_total(self, a: Seq<char>) -> u128 {
        self.bidders@[self.idx_of(a)].amount
    }

    /// `a`'s accepted-deposit count; meaningful only when `spec_has(a)`.
    pub open spec fn spec_count(self, a: Seq<char>) -> u128 {
        self.bidders@[self.idx_of(a)].count
    }

    /// What must hold of one deposit record within this state. Every
    /// accepted deposit strictly raised its participant's total, so the
    /// count never exceeds the amount; and every accepted deposit covered
    /// one commission, so the commissions owed never exceed it either.
    pub open spec fn record_ok(self, r: BidderRecord) -> bool {
        &&& 1 <= r.count <= r.amount
        &&& r.count * self.config.commission <= r.amount
        &&& r.amount <= self.highest_bid.bid
        &&& r.address@ != self.config.owner@
    }

    /// Well-formedness: established at instantiation, preserved by every operation.
    ///
    /// - deposit records are keyed uniquely by address;
    /// - each record owes no more commission than it deposited, and deposited
    ///   no more than the leading amount;
    /// - the operator never holds a deposit record;
    /// - a positive leading amount is the cumulative deposit of the leader;
    /// - the winner is recorded exactly when the auction is closed, and is
    ///   then the leader at closing time.
    pub open spec fn wf(self) -> bool {
        &&& unique_addresses(self.bidders@)
        &&& forall|i: int|
            0 <= i < self.bidders@.len() ==> self.record_ok(#[trigger] self.bidders@[i])
        &&& self.highest_bid.bid > 0
            ==> self.spec_has(self.highest_bid.address@)
                && self.spec_total(self.highest_bid.address@) == self.highest_bid.bid
        &&& (self.bid_winner is Some <==> self.is_bidding_closed)
        &&& self.is_bidding_closed
            ==> (self.bid_winner matches Some(w) && w@ == self.highest_bid.address@)
    }
}

/// With unique addresses, the record at index `i` is the one the lookup
/// spec functions describe for its address.
pub proof fn lemma_at_index(s: AuctionState, i: int)
    requires
        unique_addresses(s.bidders@),
        0 <= i < s.bidders@.len(),
    ensures
        s.spec_has(s.bidders@[i].address@),
        s.idx_of(s.bidders@[i].address@) == i,
        s.spec_total(s.bidders@[i].address@) == s.bidders@[i].amount,
        s.spec_count(s.bidders@[i].address@) == s.bidders@[i].count,
{
    let a = s.bidders@[i].address@;
    assert(s.spec_has(a));
    let k = s.idx_of(a);
    assert(0 <= k < s.bidders@.len() && s.bidders@[k].address@ == a);
    if k < i {
        assert(s.bidders@[k].address@ != s.bidders@[i].address@);
    } else if i < k {
        assert(s.bidders@[i].address@ != s.bidders@[k].address@);
    }
}

/// Replacing the record at index `i` by one with the same address rewrites
/// that participant's entry and leaves every other participant's entry alone.
pub proof fn lemma_update_record(pre: AuctionState, post: AuctionState, i: int, rec: BidderRecord)
    requires
        unique_addresses(pre.bidders@),
        0 <= i < pre.bidders@.len(),
        rec.address@ == pre.bidders@[i].address@,
        post.bidders@ == pre.bidders@.update(i, rec),
    ensures
        unique_addresses(post.bidders@),
        post.spec_has(rec.address@),
        post.idx_of(rec.address@) == i,
        post.spec_total(rec.address@) == rec.amount,
        post.spec_count(rec.address@) == rec.count,
        forall|a: Seq<char>|
            a != rec.address@ ==> (#[trigger] post.spec_has(a) <==> pre.spec_has(a)),
        forall|a: Seq<char>|
            a != rec.address@ && pre.spec_has(a)
                ==> #[trigger] post.spec_total(a) == pre.spec_total(a)
                    && post.spec_count(a) == pre.spec_count(a)
                    && post.idx_of(a) == pre.idx_of(a),
{
    assert(forall|j: int|
        0 <= j < pre.bidders@.len()
            ==> #[trigger] post.bidders@[j].address@ == pre.bidders@[j].address@);
    assert(unique_addresses(post.bidders@));
    lemma_at_index(post, i);
    assert forall|a: Seq<char>|
        a != rec.address@ implies (#[trigger] post.spec_has(a) <==> pre.spec_has(a)) by {
        if pre.spec_has(a) {
            let j = pre.idx_of(a);
            assert(post.bidders@[j].address@ == a);
            assert(post.spec_has(a));
        }
        if post.spec_has(a) {
            let j = post.idx_of(a);
            assert(pre.bidders@[j].address@ == a);
            assert(pre.spec_has(a));
        }
    }
    assert forall|a: Seq<char>|
        a != rec.address@ && pre.spec_has(a) implies #[trigger] post.spec_total(a)
        == pre.spec_total(a) && post.spec_count(a) == pre.spec_count(a) && post.idx_of(a)
        == pre.idx_of(a) by {
        let j = pre.idx_of(a);
        assert(0 <= j < pre.bidders@.len() && pre.bidders@[j].address@ == a);
        assert(j != i);
        assert(post.bidders@[j] == pre.bidders@[j]);
        lemma_at_index(post, j);
        lemma_at_index(pre, j);
    }
}

/// Appending a record for a fresh address creates that participant's entry
/// and leaves every other participant's entry alone.
pub proof fn lemma_push_record(pre: AuctionState, post: AuctionState, rec: BidderRecord)
    requires
        unique_addresses(pre.bidders@),
        !pre.spec_has(rec.address@),
        post.bidders@ == pre.bidders@.push(rec),
    ensures
        unique_addresses(post.bidders@),
        post.spec_has(rec.address@),
        post.idx_of(rec.address@) == pre.bidders@.len(),
        post.spec_total(rec.address@) == rec.amount,
        post.spec_count(rec.address@) == rec.count,
        forall|a: Seq<char>|
            a != rec.address@ ==> (#[trigger] post.spec_has(a) <==> pre.spec_has(a)),
        forall|a: Seq<char>|
            a != rec.address@ && pre.spec_has(a)
                ==> #[trigger] post.spec_total(a) == pre.spec_total(a)
                    && post.spec_count(a) == pre.spec_count(a)
                    && post.idx_of(a) == pre.idx_of(a),
{
    let n = pre.bidders@.len() as int;
    assert(forall|j: int| 0 <= j < n ==> pre.bidders@[j].address@ != rec.address@);
    assert(unique_addresses(post.bidders@));
    assert(post.bidders@[n].address@ == rec.address@);
    lemma_at_index(post, n);
    assert forall|a: Seq<char>|
        a != rec.address@ implies (#[trigger] post.spec_has(a) <==> pre.spec_has(a)) by {
        if pre.spec_has(a) {
            let j = pre.idx_of(a);
            assert(post.bidders@[j].address@ == a);
            assert(post.spec_has(a));
        }
        if post.spec_has(a) {
            let j = post.idx_of(a);
            assert(j != n);
            assert(pre.bidders@[j].address@ == a);
            assert(pre.spec_has(a));
        }
    }
    assert forall|a: Seq<char>|
        a != rec.address@ && pre.spec_has(a) implies #[trigger] post.spec_total(a)
        == pre.spec_total(a) && post.spec_count(a) == pre.spec_count(a) && post.idx_of(a)
        == pre.idx_of(a) by {
        let j = pre.idx_of(a);
        assert(0 <= j < n && pre.bidders@[j].address@ == a);
        assert(post.bidders@[j] == pre.bidders@[j]);
        lemma_at_index(post, j);
        lemma_at_index(pre, j);
    }
}

/// Removing the record at index `i` erases exactly that participant's entry.
pub proof fn lemma_remove_record(pre: AuctionState, post: AuctionState, i: int)
    requires
        unique_addresses(pre.bidders@),
        0 <= i < pre.bidders@.len(),
        post.bidders@ == pre.bidders@.remove(i),
    ensures
        unique_addresses(post.bidders@),
        !post.spec_has(pre.bidders@[i].address@),
        forall|a: Seq<char>|
            a != pre.bidders@[i].address@ ==> (#[trigger] post.spec_has(a) <==> pre.spec_has(
                a,
            )),
        forall|a: Seq<char>|
            a != pre.bidders@[i].address@ && pre.spec_has(a)
                ==> #[trigger] post.spec_total(a) == pre.spec_total(a)
                    && post.spec_count(a) == pre.spec_count(a),
{
    let b1 = pre.bidders@;
    let b2 = post.bidders@;
    let gone = b1[i].address@;
    assert(forall|j: int|
        0 <= j < b2.len() ==> #[trigger] b2[j] == (if j < i {
            b1[j]
        } else {
            b1[j + 1]
        }));
    assert forall|p: int, q: int| 0 <= p < q < b2.len() implies #[trigger] b2[p].address@
        != #[trigger] b2[q].address@ by {
        let p1 = if p < i { p } else { p + 1 };
        let q1 = if q < i { q } else { q + 1 };
        assert(b1[p1].address@ != b1[q1].address@);
    }
    assert forall|j: int| 0 <= j < b2.len() implies #[trigger] b2[j].address@ != gone by {
        let j1 = if j < i { j } else { j + 1 };
        if j1 < i {
            assert(b1[j1].address@ != b1[i].address@);
        } else if j1 > i {
            assert(b1[i].address@ != b1[j1].address@);
        }
    }
    assert(!post.spec_has(gone));
    assert forall|a: Seq<char>| a != gone implies (#[trigger] post.spec_has(a)
        <==> pre.spec_has(a)) by {
        if pre.spec_has(a) {
            let j = pre.idx_of(a);
            assert(0 <= j < b1.len() && b1[j].address@ == a);
            assert(j != i);
            let j2 = if j < i { j } else { j - 1 };
            assert(b2[j2].address@ == a);
            assert(post.spec_has(a));
        }
        if post.spec_has(a) {
            let j = post.idx_of(a);
            let j1 = if j < i { j } else { j + 1 };
            assert(b1[j1].address@ == a);
            assert(pre.spec_has(a));
        }
    }
    assert forall|a: Seq<char>|
        a != gone && pre.spec_has(a) implies #[trigger] post.spec_total(a) == pre.spec_total(a)
        && post.spec_count(a) == pre.spec_count(a) by {
        let j = pre.idx_of(a);
        assert(0 <= j < b1.len() && b1[j].address@ == a);
        lemma_at_index(pre, j);
        assert(j != i);
        let j2 = if j < i { j } else { j - 1 };
        assert(b2[j2] == b1[j]);
        lemma_at_index(post, j2);
    }
}

/// The index of the record whose address equals `addr`, if any.
pub(crate) fn find_bidder_index(bidders: &Vec<BidderRecord>, addr: &String) -> (r: Option<usize>)
    ensures
        match r {
            Some(i) => i < bidders@.len() && bidders@[i as int].address@ == addr@,
            None => forall|j: int| 0 <= j < bidders@.len() ==> bidders@[j].address@ != addr@,
        },
{
    let n = bidders.len();
    let mut i: usize = 0;
    while i < n
        invariant
            n == bidders@.len(),
            i <= n,
            forall|j: int| 0 <= j < i ==> bidders@[j].address@ != addr@,
        decreases n - i,
    {
        if bidders[i].address == *addr {
            return Some(i);
        }
        i = i + 1;
    }
    None
}

} // verus!
