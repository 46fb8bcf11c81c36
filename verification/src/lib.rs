//! Durability-offset coordination for an append-only log.
//!
//! One producer appends bytes to a growing file, a durabilizer persists them
//! to stable storage, and observers read back only the prefix that is
//! guaranteed durable. The coordination kernel — two monotone offsets, two
//! single-slot signals, and the per-round state machine — is verified here;
//! the file and the signal wakeups themselves are external collaborators.

pub mod errors;
pub mod signal;
pub mod session;
pub mod storage;
pub mod observer;
pub mod pipeline;
