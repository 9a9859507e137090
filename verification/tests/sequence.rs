//! Tests for the sequence counter: first value, wrap rule, full cycle.

use adcmt7351::SequenceCounter;

#[test]
fn first_next_returns_one() {
    let mut counter = SequenceCounter::new();
    assert_eq!(counter.next(), 1);
}

#[test]
fn counts_up_by_one() {
    let mut counter = SequenceCounter::new();
    assert_eq!(counter.next(), 1);
    assert_eq!(counter.next(), 2);
    assert_eq!(counter.next(), 3);
}

#[test]
fn full_cycle_visits_one_to_255_and_wraps_to_one() {
    let mut counter = SequenceCounter::new();
    let mut seen: Vec<u8> = Vec::new();
    for _ in 0..255 {
        let value = counter.next();
        assert_ne!(value, 0);
        seen.push(value);
    }
    let expected: Vec<u8> = (1..=255).collect();
    assert_eq!(seen, expected);
    // The 256th value wraps past 0 back to 1.
    assert_eq!(counter.next(), 1);
}

#[test]
fn increment_advances_without_returning() {
    let mut counter = SequenceCounter::new();
    counter.increment();
    assert_eq!(counter.next(), 2);
}

#[test]
fn default_counter_behaves_like_new() {
    let mut counter = SequenceCounter::default();
    assert_eq!(counter.next(), 1);
}
