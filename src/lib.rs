//! Tracks the best values a mining device reports, across restarts of the
//! monitor and reboots of the device.
//!
//! Floating-point values are held as their IEEE-754 binary64 encodings
//! ([`ieee::Binary64`]); comparisons on them are exact, while arithmetic on
//! them is done by the caller, which hands the outcomes back as plain values.
pub mod config;
pub mod detect;
pub mod events;
pub mod extract;
pub mod ieee;
pub mod number;
pub mod persist;
pub mod report;
pub mod retry;
