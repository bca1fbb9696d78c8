//! Confidential two-player duel resolution.
//!
//! Each player commits an encrypted move; once both commitments exist, a
//! resolution request packages them for a secure-computation network, which
//! evaluates the outcome function over the decrypted operands and calls back
//! with a sealed result. This crate holds the verified core of that protocol:
//! the outcome function itself, the per-match state machine that gates when a
//! resolution may be requested, and the coordinator logic that decodes and
//! applies a verified callback exactly once.
//!
//! The ledger that persists match records, the network that orders the
//! transactions, and the secure-computation service itself are external
//! collaborators: they appear here only through the plain values they hand in
//! and take back.

pub mod codec;
pub mod duel;
pub mod protocol;
