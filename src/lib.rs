//! A per-creator token market priced on an integer bonding curve.
//!
//! The pricing engine, the account checks and the buy / sell / claim
//! transitions are verified here; moving lamports and tokens on chain is left
//! to the program that hosts this library.
pub mod buy;
pub mod claim;
pub mod error;
pub mod init_curve;
pub mod init_pool;
pub mod ledger;
pub mod pda;
pub mod pricing;
pub mod sell;
pub mod state;
