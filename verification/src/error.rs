//! The caller-visible failures of the auction operations.

use vstd::prelude::*;

verus! {

/// Every way an operation can refuse the requested transition.
///
/// Each failure is terminal and synchronous: the operation performs no state
/// write and instructs no transfer. Faults of the host environment (identity
/// validation, the persistent store) are not part of the accounting core and
/// surface outside it.
#[derive(Debug, Clone, PartialEq, Eq, Structural)]
pub enum BidError {
    /// A deposit arrived after the auction was closed, or the operator tried
    /// to close it a second time.
    BiddingClosed {},
    /// The attached funds held no entry in the accepted denomination.
    WrongToken {},
    /// The operator is structurally excluded from bidding in its own auction.
    OwnerCantBid {},
    /// The attached amount could not cover even one commission unit.
    BidUnderCommission {},
    /// The deposit would not strictly improve on the current leading total.
    BidTooLow {},
    /// Someone other than the operator tried to close the auction.
    Unauthorized {},
    /// A retraction by a participant without an outstanding deposit record.
    NothingToRetract {},
    /// A retraction before the auction was closed.
    BiddingNotClose {},
    /// The recorded winner tried to retract; the winner's funds are settled
    /// exclusively through closing.
    WinnerCantRetract {},
}

impl BidError {
    /// A short human-readable description, mirroring the failure's meaning.
    pub fn message(&self) -> &'static str {
        match self {
            BidError::BiddingClosed {} => "Bidding is closed",
            BidError::WrongToken {} => "Token not accepted",
            BidError::OwnerCantBid {} => "Owner can not bid",
            BidError::BidUnderCommission {} => "Bid is under commission",
            BidError::BidTooLow {} => "Bid is not the new highest bid",
            BidError::Unauthorized {} => "Unauthorized",
            BidError::NothingToRetract {} => "Nothing to retract",
            BidError::BiddingNotClose {} => "Bidding not close",
            BidError::WinnerCantRetract {} => "Winner can't retract",
        }
    }
}

} // verus!
