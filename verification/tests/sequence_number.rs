//! Tests of the change counter.

use dataport::sequence_number::SequenceNumber;

fn is_normal<T: Sized + Send + Sync>() {}

// check, that the auto traits are available.
#[test]
fn sequence_number_normal_types() {
    is_normal::<&SequenceNumber>();
    is_normal::<SequenceNumber>();
}

#[test]
fn creation() {
    let mut sq = SequenceNumber::default();
    assert_eq!(sq.value(), 0);
    sq.increment();
    assert_eq!(sq.value(), 1);
    let mut sq = SequenceNumber::starting_at(u32::MAX - 1);
    sq.increment();
    assert_eq!(sq.value(), u32::MAX);
    sq.increment();
    assert_eq!(sq.value(), 1);
}

#[test]
fn methods() {
    let mut sq = SequenceNumber::default();
    assert_eq!(sq, SequenceNumber::starting_at(0));
    sq.increment();
    assert_eq!(sq, SequenceNumber::starting_at(1));
    let mut sq = SequenceNumber::starting_at(u32::MAX - 1);
    sq.increment();
    assert_eq!(sq, SequenceNumber::starting_at(u32::MAX));
    sq.increment();
    assert_eq!(sq, SequenceNumber::starting_at(1));
}

#[test]
fn new_counter_is_zero() {
    assert_eq!(SequenceNumber::new().value(), 0);
}

#[test]
fn zero_is_never_reached_again() {
    let mut sq = SequenceNumber::starting_at(u32::MAX);
    sq.increment();
    assert_eq!(sq.value(), 1);
    sq.increment();
    assert_eq!(sq.value(), 2);
}
