//! The environment-facing parts: the logger.

pub mod logger;
