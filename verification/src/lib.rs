//! Accounting core of a cross-chain asset relay.
//!
//! Tracks, per communication channel and per asset denomination, how much
//! value is outstanding (in transit) versus how much has ever been sent,
//! and computes the commission withheld from every outgoing transfer
//! before the remainder is forwarded.

pub mod amount;
pub mod error;
pub mod state;
