//! A verified escrow engine.
//!
//! Wallets pair a buyer with a seller over an agreed amount of tokens held by
//! an external ledger service.  Funds move only through asynchronous transfer
//! requests to that ledger; the engine records every attempt so that a request
//! interrupted while suspended on the ledger call can be resumed exactly once.
//!
//! The crate holds the decision logic alone: each request handler validates,
//! commits state, and hands back either a finished event or a transfer request
//! for the caller's runtime to dispatch.  The runtime reports the ledger's
//! reply (or an interruption) back through [`engine::Escrow::finish`] and
//! [`engine::Escrow::handle_signal`].

pub mod ids;
pub mod wallet;
pub mod txlog;
pub mod interrupts;
pub mod engine;
pub mod laws;
