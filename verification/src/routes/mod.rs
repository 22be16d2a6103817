//! The operations that the pool offers to its callers, each with the status
//! code of its response.

pub mod keys;
pub mod next;
pub mod stats;
