//! What connects the model to the outside.

pub mod output;
