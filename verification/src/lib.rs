//! Accounting core of a single-round escrow auction.
//!
//! Participants accumulate deposits, the highest cumulative deposit leads,
//! an operator closes the auction and settles the winner's net proceeds,
//! and non-winners reclaim their escrow minus a per-deposit commission.
//! Every operation is a pure transition on an [`state::AuctionState`] value
//! and returns the bank transfers to be executed atomically with it; the
//! host that persists the state and moves the funds lives outside this crate.

pub mod contract;
pub mod error;
pub mod laws;
pub mod msg;
pub mod state;
