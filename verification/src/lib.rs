//! Parallel hashcash-style proof of work: find a counter such that the SHA-1
//! digest of `message + " " + counter` starts with a required number of zero
//! hexadecimal digits.
//!
//! The counter space is cut into one range per worker. Every worker walks its
//! range, polling a cancellation broadcast between candidates; the first
//! result that reaches the coordinator wins and the others are told to stop.

pub mod cancel;
pub mod candidate;
pub mod channel;
pub mod coordinator;
pub mod digits;
pub mod hashing;
pub mod matcher;
pub mod partition;
pub mod result;
pub mod worker;
