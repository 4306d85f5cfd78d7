//! The account and ledger model.

pub mod account;
pub mod activity;
pub mod money;
pub mod timestamp;
