//! Generating UUID timestamps.
//!
//! This module provides a single [`Timestamp`] type that can convert between
//! the two wire encodings of an instant that UUID versions use: a count of
//! 100-nanosecond ticks since the RFC4122 epoch, and split whole/fractional
//! Unix seconds.

pub mod context;

use vstd::prelude::*;

verus! {

/// The number of 100 nanosecond ticks between the RFC4122 epoch
/// (`1582-10-15 00:00:00`) and the Unix epoch (`1970-01-01 00:00:00`).
pub const UUID_TICKS_BETWEEN_EPOCHS: u64 = 0x01B2_1DD2_1381_4000;

/// The RFC4122 tick count that encodes the instant `seconds` whole seconds
/// plus `nanos` nanoseconds after the Unix epoch. Precision below one tick
/// (100 nanoseconds) is truncated by the division.
pub open spec fn rfc4122_ticks_of_unix(seconds: int, nanos: int) -> int {
    UUID_TICKS_BETWEEN_EPOCHS + seconds * 10_000_000 + nanos / 100
}

/// The whole Unix seconds encoded by an RFC4122 tick count.
pub open spec fn unix_seconds_of_rfc4122(ticks: int) -> int {
    (ticks - UUID_TICKS_BETWEEN_EPOCHS) / 10_000_000
}

/// The fractional part, in nanoseconds, encoded by an RFC4122 tick count.
/// Always a multiple of 100, since a tick is 100 nanoseconds.
pub open spec fn unix_nanos_of_rfc4122(ticks: int) -> int {
    ((ticks - UUID_TICKS_BETWEEN_EPOCHS) % 10_000_000) * 100
}

/// A timestamp that can be encoded into a UUID.
///
/// This type abstracts the specific encoding, so a UUID version 1 or
/// a UUID version 7 can both be supported through the same type, even
/// though they have a different representation of a timestamp.
#[derive(Debug, Clone, Copy, PartialEq, Eq, Hash, Structural)]
pub struct Timestamp {
    /// Whole seconds since the Unix epoch.
    pub seconds: u64,
    /// Fractional part of the instant, in nanoseconds; below one second.
    pub nanos: u32,
    /// A disambiguation counter, meaningful only in the RFC4122 encoding;
    /// semantically independent of `seconds` and `nanos`.
    pub counter: u16,
}

impl Timestamp {
    /// Get a timestamp representing the current system time.
    ///
    /// This method defers to the standard library's `SystemTime` type; it
    /// aborts if that clock reads earlier than the Unix epoch, since a
    /// timestamp with an underflowed `seconds` would silently encode a false
    /// instant.
    pub fn now(context: impl ClockSequence<Output = u16>) -> (r: Self)
        ensures
            r.nanos < 1_000_000_000,
            context.generates(r.seconds, r.nanos, r.counter),
    {
        let (seconds, nanos) = elapsed_since_unix_epoch();
        let counter = context.generate_sequence(seconds, nanos);
        Timestamp { seconds, nanos, counter }
    }

    /// Construct a `Timestamp` from an RFC4122 timestamp and counter, as used
    /// in version 1 and version 6 UUIDs.
    ///
    /// The `counter` is stored verbatim: no range validation is performed,
    /// since this constructor is a low-level building block driven by
    /// identifier-assembly code.
    pub fn from_rfc4122(ticks: u64, counter: u16) -> (r: Self)
        requires
            ticks >= UUID_TICKS_BETWEEN_EPOCHS,
        ensures
            r.seconds == unix_seconds_of_rfc4122(ticks as int),
            r.nanos == unix_nanos_of_rfc4122(ticks as int),
            r.counter == counter,
            r.nanos < 1_000_000_000,
    {
        let (seconds, nanos) = Self::rfc4122_to_unix(ticks);
        Timestamp { seconds, nanos, counter }
    }

    /// Construct a `Timestamp` from a Unix timestamp, invoking the given
    /// counter strategy with the supplied instant (not wall-clock time), so
    /// the strategy can base its output on that instant if it chooses to.
    pub fn from_unix(
        context: impl ClockSequence<Output = u16>,
        seconds: u64,
        nanos: u32,
    ) -> (r: Self)
        requires
            nanos < 1_000_000_000,
        ensures
            r.seconds == seconds,
            r.nanos == nanos,
            context.generates(seconds, nanos, r.counter),
    {
        let counter = context.generate_sequence(seconds, nanos);
        Timestamp { seconds, nanos, counter }
    }

    /// Get the value of the timestamp as an RFC4122 timestamp and counter,
    /// as used in version 1 and version 6 UUIDs.
    ///
    /// Nanosecond precision below the 100ns tick is truncated, not rounded:
    /// an accepted precision loss of the RFC4122 encoding.
    pub fn to_rfc4122(&self) -> (r: (u64, u16))
        requires
            rfc4122_ticks_of_unix(self.seconds as int, self.nanos as int) <= u64::MAX,
        ensures
            r.0 == rfc4122_ticks_of_unix(self.seconds as int, self.nanos as int),
            r.1 == self.counter,
    {
        (Self::unix_to_rfc4122_ticks(self.seconds, self.nanos), self.counter)
    }

    /// Get the value of the timestamp as a Unix timestamp, consisting of the
    /// number of whole and fractional seconds.
    pub fn to_unix(&self) -> (r: (u64, u32))
        ensures
            r.0 == self.seconds,
            r.1 == self.nanos,
    {
        (self.seconds, self.nanos)
    }

    /// Get the number of fractional nanoseconds in the Unix timestamp.
    ///
    /// Prefer `to_unix`. This accessor does not return the timestamp as
    /// nanoseconds since the Unix epoch: it returns only the fractional
    /// seconds of the timestamp. The return type is too small to hold a
    /// useful nanoseconds-since-epoch value, and prior consumers depend on
    /// the existing behavior, so it is kept exactly as it is.
    pub fn to_unix_nanos(&self) -> (r: u32)
        ensures
            r == self.nanos,
    {
        self.nanos
    }

    fn unix_to_rfc4122_ticks(seconds: u64, nanos: u32) -> (ticks: u64)
        requires
            rfc4122_ticks_of_unix(seconds as int, nanos as int) <= u64::MAX,
        ensures
            ticks == rfc4122_ticks_of_unix(seconds as int, nanos as int),
    {
        let ticks: u64 = UUID_TICKS_BETWEEN_EPOCHS + seconds * 10_000_000 + nanos as u64 / 100;
        ticks
    }

    fn rfc4122_to_unix(ticks: u64) -> (r: (u64, u32))
        requires
            ticks >= UUID_TICKS_BETWEEN_EPOCHS,
        ensures
            r.0 == unix_seconds_of_rfc4122(ticks as int),
            r.1 == unix_nanos_of_rfc4122(ticks as int),
            r.1 < 1_000_000_000,
    {
        (
            (ticks - UUID_TICKS_BETWEEN_EPOCHS) / 10_000_000,
            ((ticks - UUID_TICKS_BETWEEN_EPOCHS) % 10_000_000) as u32 * 100,
        )
    }
}

/// Round-trip law: encoding Unix `(seconds, nanos)` as RFC4122 ticks and
/// decoding again returns `seconds` exactly and `nanos` truncated to the
/// 100-nanosecond grid.
pub proof fn lemma_rfc4122_round_trip(seconds: int, nanos: int)
    requires
        0 <= seconds,
        0 <= nanos < 1_000_000_000,
    ensures
        unix_seconds_of_rfc4122(rfc4122_ticks_of_unix(seconds, nanos)) == seconds,
        unix_nanos_of_rfc4122(rfc4122_ticks_of_unix(seconds, nanos)) == (nanos / 100) * 100,
{
    let ticks = rfc4122_ticks_of_unix(seconds, nanos);
    assert(ticks - UUID_TICKS_BETWEEN_EPOCHS == seconds * 10_000_000 + nanos / 100);
    assert(0 <= nanos / 100 < 10_000_000) by {
        vstd::arithmetic::div_mod::lemma_div_is_ordered(nanos, 999_999_999, 100);
    }
    vstd::arithmetic::div_mod::lemma_fundamental_div_mod_converse(
        ticks - UUID_TICKS_BETWEEN_EPOCHS,
        10_000_000,
        seconds,
        nanos / 100,
    );
}

/// Exact round-trip law: when `nanos` lies on the 100-nanosecond grid, the
/// RFC4122 encoding loses nothing and Unix -> ticks -> Unix is the identity.
pub proof fn lemma_rfc4122_round_trip_exact(seconds: int, nanos: int)
    requires
        0 <= seconds,
        0 <= nanos < 1_000_000_000,
        nanos % 100 == 0,
    ensures
        unix_seconds_of_rfc4122(rfc4122_ticks_of_unix(seconds, nanos)) == seconds,
        unix_nanos_of_rfc4122(rfc4122_ticks_of_unix(seconds, nanos)) == nanos,
{
    lemma_rfc4122_round_trip(seconds, nanos);
    vstd::arithmetic::div_mod::lemma_fundamental_div_mod(nanos, 100);
}

/// A counter that can be used by version 1 and version 6 UUIDs to support
/// the uniqueness of timestamps.
pub trait ClockSequence {
    /// The type of sequence returned by this counter.
    type Output;

    /// What this strategy promises of every value it can generate for the
    /// given instant. Each implementation defines it; `generate_sequence`
    /// guarantees it of everything it returns.
    spec fn generates(&self, seconds: u64, subsec_nanos: u32, out: Self::Output) -> bool;

    /// Get the next value in the sequence to feed into a timestamp.
    ///
    /// This method will be called each time a [`Timestamp`] is constructed.
    fn generate_sequence(&self, seconds: u64, subsec_nanos: u32) -> (out: Self::Output)
        ensures
            self.generates(seconds, subsec_nanos, out),
    ;
}

impl<'a, T: ClockSequence + ?Sized> ClockSequence for &'a T {
    type Output = T::Output;

    open spec fn generates(&self, seconds: u64, subsec_nanos: u32, out: Self::Output) -> bool {
        (**self).generates(seconds, subsec_nanos, out)
    }

    fn generate_sequence(&self, seconds: u64, subsec_nanos: u32) -> (out: Self::Output) {
        (**self).generate_sequence(seconds, subsec_nanos)
    }
}

/// Relies on `std::time::SystemTime`: `UNIX_EPOCH.elapsed()` returns the time
/// between the Unix epoch and now, and `Duration::subsec_nanos` is documented
/// to be below one billion. Aborts when the system clock reads earlier than
/// the Unix epoch: a broken host clock is a fatal environment violation, not
/// a recoverable error.
#[verifier::external_body]
fn elapsed_since_unix_epoch() -> (r: (u64, u32))
    ensures
        r.1 < 1_000_000_000,
{
    let dur = std::time::SystemTime::UNIX_EPOCH
        .elapsed()
        .expect("Getting elapsed time since UNIX_EPOCH. If this fails, we've somehow violated causality");
    (dur.as_secs(), dur.subsec_nanos())
}

} // verus!
