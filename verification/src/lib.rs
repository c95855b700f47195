//! Control plane for a family of token components: the registry of deployed
//! stocks, the capability check, the two-way swap between STKN and PUSD, and
//! the state machine that correlates deployment replies.

pub mod error;
pub mod msg;
pub mod registry;
pub mod state;
pub mod swap;
pub mod contract;
pub mod laws;
