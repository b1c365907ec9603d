//! A trustless two-party asset exchange: a maker locks a quantity of asset X
//! in a custody account with no private key and records the quantity of asset
//! Y expected in return; any taker may settle the trade atomically, or the
//! maker may cancel and reclaim the deposit.
//!
//! The library holds the verified core: deterministic address derivation
//! (behind one trusted call into the ledger SDK), the byte-exact escrow
//! record layout, the validation gauntlet of each operation, and the three
//! state transitions over a plain model of the touched accounts.

pub mod accept;
pub mod accounts;
pub mod codec;
pub mod error;
pub mod laws;
pub mod model;
pub mod offer;
pub mod pda;
pub mod processor;
pub mod refund;
pub mod state;
pub mod vault;
