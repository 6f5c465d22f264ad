//! Settlement and account-state core of an on-chain exchange: account
//! validation, market and user records, the program-derived vault authority,
//! the instruction handlers and the event crank.

pub mod error;
pub mod key;
pub mod codec;
pub mod state;
pub mod authority;
pub mod token;
pub mod accounts;
pub mod effect;
pub mod instruction;
pub mod create_market;
pub mod initialize_account;
pub mod settle;
pub mod sweep_fees;
pub mod close_account;
pub mod close_market;
pub mod crank;
pub mod consume_events;
pub mod processor;
pub mod builders;
