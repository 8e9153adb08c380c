//! Default implementations for the [`ClockSequence`] trait.

use vstd::prelude::*;
use crate::timestamp::ClockSequence;

verus! {

/// An empty counter that will always return the value `0`.
///
/// This type should be used when constructing timestamps for version 7 UUIDs,
/// since they don't need a counter for uniqueness.
#[derive(Debug, Clone, Copy, Default)]
pub struct NoContext;

impl ClockSequence for NoContext {
    type Output = u16;

    open spec fn generates(&self, seconds: u64, subsec_nanos: u32, out: u16) -> bool {
        out == 0
    }

    fn generate_sequence(&self, _seconds: u64, _subsec_nanos: u32) -> (out: u16)
        ensures
            out == 0,
    {
        0
    }
}

#[verifier::external_type_specification]
#[verifier::external_body]
#[verifier::reject_recursive_types(T)]
pub struct ExAtomic<T>(atomic::Atomic<T>);

/// The value an atomic cell was created holding. Only the trusted
/// constructor wrapper says anything of this name: later `fetch_add` calls
/// mutate the cell through a shared reference, which leaves the name — the
/// creation-time content — untouched.
pub uninterp spec fn seeded_with(cell: atomic::Atomic<u16>) -> u16;

/// Relies on `atomic::Atomic::new`: creates a fresh atomic cell that holds
/// the given value.
#[verifier::external_body]
fn atomic_u16_new(v: u16) -> (r: atomic::Atomic<u16>)
    ensures
        seeded_with(r) == v,
{
    atomic::Atomic::<u16>::new(v)
}

/// Relies on `atomic::Atomic::fetch_add`: atomically adds 1 to the shared
/// cell, wrapping on overflow, and returns the value the cell held before.
/// The cell is shared between threads, so no ensures can relate the result
/// to any value this caller saw earlier.
#[verifier::external_body]
fn atomic_u16_fetch_add_one(cell: &atomic::Atomic<u16>) -> u16 {
    cell.fetch_add(1, atomic::Ordering::AcqRel)
}

/// Relies on `rand::random`: a fresh random value; nothing holds of which
/// one comes back.
#[verifier::external_body]
fn random_u16() -> u16 {
    rand::random::<u16>()
}

/// A thread-safe, wrapping counter that produces 14-bit numbers.
///
/// This type should be used when constructing version 1 and version 6 UUIDs.
#[derive(Debug)]
pub struct Context {
    count: atomic::Atomic<u16>,
}

impl Context {
    /// The value this context's counter cell was seeded with when the
    /// context was constructed.
    pub closed spec fn seed(self) -> u16 {
        seeded_with(self.count)
    }

    /// Construct a new context that's initialized with the given value.
    ///
    /// The starting value should be a random number, so that UUIDs from
    /// different systems with the same timestamps are less likely to collide.
    /// Prefer [`Context::new_random`] unless the starting value must be
    /// deterministic or externally coordinated.
    pub fn new(count: u16) -> (r: Context)
        ensures
            r.seed() == count,
    {
        Context { count: atomic_u16_new(count) }
    }

    /// Construct a new context that's initialized with a random value.
    pub fn new_random() -> Context {
        Context { count: atomic_u16_new(random_u16()) }
    }
}

impl ClockSequence for Context {
    type Output = u16;

    open spec fn generates(&self, seconds: u64, subsec_nanos: u32, out: u16) -> bool {
        out < 16383
    }

    fn generate_sequence(&self, _seconds: u64, _subsec_nanos: u32) -> (out: u16)
        ensures
            out < 16383,
    {
        // The timestamp arguments are deliberately unused: disambiguation
        // here comes purely from an always-incrementing counter, so the
        // resulting identifiers stay distinguishable even under a frozen or
        // coarse clock.
        let raw = atomic_u16_fetch_add_one(&self.count);
        reduce_to_14_bits(raw)
    }
}

/// Reduce a raw counter reading to the 14 bits the RFC4122 wire format
/// leaves usable: the format reserves the top 2 bits of the clock sequence
/// for itself, so the counter must wrap before those bits would be
/// disturbed. The reduction is modulo `u16::MAX >> 2`, that is 16383.
pub fn reduce_to_14_bits(raw: u16) -> (r: u16)
    ensures
        r == raw % 16383,
        r < 16383,
{
    assert(u16::MAX >> 2 == 16383) by (bit_vector);
    raw % (u16::MAX >> 2)
}

/// Progression law of the shared counter: as long as the raw 16-bit cell
/// does not wrap, two consecutive raw readings reduce to consecutive 14-bit
/// outputs modulo the wraparound period. Since `fetch_add` hands out the
/// value before each increment of one, a single-threaded run of [`Context`]
/// seeded with `seed` therefore counts `seed % 16383`, `(seed + 1) % 16383`,
/// and so on, until the 16-bit cell itself wraps.
pub proof fn lemma_counter_progression(raw: u16)
    requires
        raw < u16::MAX,
    ensures
        (raw + 1) % 16383 == ((raw % 16383) + 1) % 16383,
{
    vstd::arithmetic::div_mod::lemma_add_mod_noop(raw as int, 1, 16383);
}

} // verus!
