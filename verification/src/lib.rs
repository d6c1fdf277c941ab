//! Interactive error recovery without the I/O.
//!
//! A fallible function is tried once. Where it fails, the failure is reported
//! and a corrected value is asked for, again and again, until a reply
//! deserializes. This crate holds the decisions of that exchange and the exact
//! text of each report; the caller owns the streams, writes what it is handed
//! and hands back what it read.

pub mod report;
pub mod render;
pub mod recovery;
pub mod dialogue;
