//! What the model is brought back from.

pub mod account_repository;
