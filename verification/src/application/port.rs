//! The ports through which the application is driven.

pub mod input;
