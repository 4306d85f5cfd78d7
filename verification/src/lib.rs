//! A bank account whose balance is not stored but derived: a baseline balance
//! plus the ledger activities recorded since that baseline.
//!
//! `domain` holds the model: money, activities, the activity window and the
//! account. `application` holds the commands and use cases that sit on top of
//! it, and `adapter` what turns stored rows into the model.

pub mod adapter;
pub mod application;
pub mod domain;
