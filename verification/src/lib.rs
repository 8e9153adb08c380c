//! Timestamps for binary identifiers.
//!
//! Timestamps are used in a few UUID versions as a source of decentralized
//! uniqueness (as in versions 1 and 6), and as a way to enable sorting (as
//! in versions 6 and 7). Timestamps aren't encoded the same way by all UUID
//! versions, so this crate provides a single `Timestamp` type that can
//! convert between them, together with the `ClockSequence` counter
//! capability that keeps identifiers minted within one clock tick distinct.

pub mod timestamp;
