//! Time-based one-time passwords (RFC 6238) on top of the HOTP truncation of
//! RFC 4226, with HMAC-SHA1 as the keyed hash.
//!
//! A token is a pure function of the shared secret, the number of digits, the
//! width of the time window and the time: every step between those four
//! values and the final string has a mathematical definition in one of the
//! modules below, and the executable code is proved to compute it.

pub mod clock;
pub mod config;
pub mod counter;
pub mod decimal;
pub mod mac;
pub mod output;
pub mod totp;
pub mod truncate;
