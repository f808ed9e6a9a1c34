//! Loggers that stay alive when the service behind them does not.
//!
//! The heart of the crate is [`syslog::retry::Retry`]: a wrapper that owns a
//! sink made by a factory, notices when the sink stops taking records, throws
//! it away, and builds a new one no more often than once per retry interval.
//! Records that arrive in between are counted, and the count is reported
//! through the new sink before normal delivery resumes.

pub mod error;
pub mod syslog;
