use uuid_timestamp::timestamp::{ClockSequence, Timestamp, UUID_TICKS_BETWEEN_EPOCHS};
use uuid_timestamp::timestamp::context::{Context, NoContext, reduce_to_14_bits};

const WRAP: u16 = 16383;

#[test]
fn known_vector_unix_to_rfc4122() {
    let ts = Timestamp::from_unix(NoContext, 0, 0);
    let (ticks, counter) = ts.to_rfc4122();
    assert_eq!(ticks, 0x01B2_1DD2_1381_4000);
    assert_eq!(ticks, UUID_TICKS_BETWEEN_EPOCHS);
    assert_eq!(counter, 0);
}

#[test]
fn known_vector_rfc4122_to_unix() {
    let ts = Timestamp::from_rfc4122(0x01B2_1DD2_1381_4000, 0);
    assert_eq!(ts.to_unix(), (0, 0));
}

#[test]
fn round_trip_on_tick_boundary_is_exact() {
    let cases: [(u64, u32); 4] = [
        (0, 0),
        (1, 200),
        (1_600_000_000, 999_999_900),
        (42, 100),
    ];
    for &(seconds, nanos) in cases.iter() {
        let (ticks, counter) = Timestamp::from_unix(NoContext, seconds, nanos).to_rfc4122();
        let back = Timestamp::from_rfc4122(ticks, counter);
        assert_eq!(back.to_unix(), (seconds, nanos));
    }
}

#[test]
fn round_trip_truncates_below_one_tick() {
    let (ticks, counter) = Timestamp::from_unix(NoContext, 1, 250).to_rfc4122();
    assert_eq!(ticks, UUID_TICKS_BETWEEN_EPOCHS + 10_000_002);
    let back = Timestamp::from_rfc4122(ticks, counter);
    assert_eq!(back.to_unix(), (1, 200));
    assert_ne!(back.to_unix().1, 250);
}

#[test]
fn rfc4122_counter_is_stored_verbatim() {
    let ts = Timestamp::from_rfc4122(UUID_TICKS_BETWEEN_EPOCHS + 123, 0xFFFF);
    let (_, counter) = ts.to_rfc4122();
    assert_eq!(counter, 0xFFFF);
}

#[test]
fn to_unix_nanos_returns_the_fractional_part_only() {
    let ts = Timestamp::from_unix(NoContext, 1_600_000_000, 123_456_789);
    assert_eq!(ts.to_unix_nanos(), 123_456_789);
}

#[test]
fn no_context_always_returns_zero() {
    assert_eq!(NoContext.generate_sequence(0, 0), 0);
    assert_eq!(NoContext.generate_sequence(u64::MAX, 999_999_999), 0);
    assert_eq!(NoContext.generate_sequence(1_600_000_000, 7), 0);
    let ts = Timestamp::from_unix(NoContext, 5, 5);
    let (_, counter) = ts.to_rfc4122();
    assert_eq!(counter, 0);
}

#[test]
fn context_counts_up_from_its_seed() {
    let context = Context::new(0);
    for expected in 0u16..20 {
        assert_eq!(context.generate_sequence(0, 0), expected);
    }
}

#[test]
fn context_wraps_at_fourteen_bits() {
    let context = Context::new(WRAP - 1);
    assert_eq!(context.generate_sequence(0, 0), WRAP - 1);
    assert_eq!(context.generate_sequence(0, 0), 0);
    assert_eq!(context.generate_sequence(0, 0), 1);
}

#[test]
fn context_output_stays_below_fourteen_bits_across_u16_wrap() {
    let context = Context::new(u16::MAX - 2);
    for _ in 0..8 {
        let sequence = context.generate_sequence(0, 0);
        assert!(sequence < 16384);
        assert!(sequence < WRAP);
    }
}

#[test]
fn context_ignores_the_timestamp_arguments() {
    let context = Context::new(10);
    assert_eq!(context.generate_sequence(55, 44), 10);
    assert_eq!(context.generate_sequence(0, 0), 11);
    assert_eq!(context.generate_sequence(u64::MAX, 999_999_999), 12);
}

#[test]
fn random_context_output_stays_in_range() {
    let context = Context::new_random();
    for _ in 0..100 {
        assert!(context.generate_sequence(0, 0) < WRAP);
    }
}

#[test]
fn context_composes_through_a_reference() {
    let context = Context::new(3);
    let by_ref = &context;
    assert_eq!(by_ref.generate_sequence(0, 0), 3);
    let ts = Timestamp::from_unix(&context, 1, 0);
    let (_, counter) = ts.to_rfc4122();
    assert_eq!(counter, 4);
}

#[test]
fn reduce_to_14_bits_matches_the_modulo() {
    assert_eq!(reduce_to_14_bits(0), 0);
    assert_eq!(reduce_to_14_bits(WRAP - 1), WRAP - 1);
    assert_eq!(reduce_to_14_bits(WRAP), 0);
    assert_eq!(reduce_to_14_bits(WRAP + 1), 1);
    assert_eq!(reduce_to_14_bits(u16::MAX), u16::MAX % WRAP);
}

#[test]
fn now_reads_a_normalized_instant() {
    let ts = Timestamp::now(NoContext);
    let (seconds, nanos) = ts.to_unix();
    assert!(nanos < 1_000_000_000);
    // The clock reads an instant well after 2020-01-01.
    assert!(seconds > 1_577_836_800);
}

#[test]
fn now_fills_the_counter_from_the_strategy() {
    let context = Context::new(100);
    let ts = Timestamp::now(&context);
    let (_, counter) = ts.to_rfc4122();
    assert_eq!(counter, 100);
    let ts2 = Timestamp::now(&context);
    let (_, counter2) = ts2.to_rfc4122();
    assert_eq!(counter2, 101);
}

#[test]
fn timestamps_with_equal_fields_are_equal() {
    let a = Timestamp::from_unix(NoContext, 7, 700);
    let b = Timestamp::from_unix(NoContext, 7, 700);
    assert_eq!(a, b);
    let c = Timestamp::from_unix(NoContext, 7, 800);
    assert_ne!(a, c);
}
