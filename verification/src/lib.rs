//! Snowflake identifiers: 64-bit values that pack a creation time and the
//! generator's worker, process and sequence numbers into fixed bit fields.
//!
//! The crate interprets identifiers; it never generates fresh ones. Every
//! function is pure. The contracts are stated over the arithmetic of
//! [`layout`] and the decimal notation of [`decimal`]; the only thing taken
//! on trust is the `time` crate's conversion between a date-time and a count
//! of nanoseconds, in [`timestamp`].

pub mod decimal;
pub mod error;
pub mod layout;
pub mod snowflake;
pub mod timestamp;

pub use error::{ParseDiagnostic, SnowflakeError};
pub use layout::{EPOCH, MAX_TIMESTAMP_DELTA};
pub use snowflake::Snowflake;
