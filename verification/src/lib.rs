//! Accounting core of an ICS20 token-transfer channel endpoint.
//!
//! The crate tracks, per channel and denomination, how much value has left
//! over the channel and not yet come back, admits inbound transfers only up
//! to that amount, and settles outbound transfers when they are acknowledged
//! or time out.
pub mod amount;
pub mod denom;
pub mod dispatch;
pub mod error;
pub mod host;
pub mod ibc;
pub mod laws;
pub mod ledger;
pub mod packet;
pub mod query;
pub mod state;
pub mod table;
pub mod text;
