//! Utilities: id generation.

pub mod id;
