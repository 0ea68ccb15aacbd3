//! A dynamic-DNS synchronizer library: resolve the caller's public address,
//! compare it with the last address published for a hostname, and prepare the
//! provider calls that bring the DNS record up to date.

pub mod dns;
pub mod error;
pub mod external;
pub mod hostname;
pub mod ip;
pub mod persistent;
pub mod providers;
pub mod sync;
pub mod text;
