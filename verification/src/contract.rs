//! The auction's operations, grouped as in the call interface: instantiation,
//! the mutating operations, and the read-only queries.

pub mod execute;
pub mod instantiate;
pub mod query;
