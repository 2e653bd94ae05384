//! The core records: users, sessions, accounts, verifications and rate-limit counters.

pub mod account;
pub mod rate_limit;
pub mod session;
pub mod shared;
pub mod user;
pub mod verification;

pub use account::Account;
pub use rate_limit::RateLimit;
pub use session::Session;
pub use shared::CoreFields;
pub use user::User;
pub use verification::Verification;
