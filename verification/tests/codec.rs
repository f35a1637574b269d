use inventory_boundary::codec::{encode, decode, BoundaryInt};
use inventory_boundary::errors::InventoryError;

#[test]
fn round_trip_zero() {
    assert_eq!(decode(&encode(0)), Ok(0));
}

#[test]
fn round_trip_small_value() {
    assert_eq!(decode(&encode(100)), Ok(100));
}

#[test]
fn round_trip_beyond_double_precision() {
    // Larger than 2^53 - 1, the host's safe native integer ceiling.
    let x: u64 = 123456789012345678;
    assert_eq!(decode(&encode(x)), Ok(x));
}

#[test]
fn round_trip_u64_max() {
    assert_eq!(decode(&encode(u64::MAX)), Ok(u64::MAX));
}

#[test]
fn encode_is_non_negative() {
    let b = encode(7);
    assert!(!b.negative);
}

#[test]
fn decode_negative_fails_with_invalid_input() {
    let b = BoundaryInt { negative: true, words: vec![5] };
    assert_eq!(decode(&b), Err(InventoryError::InvalidInput));
}

#[test]
fn decode_large_negative_fails_with_invalid_input() {
    let b = BoundaryInt { negative: true, words: vec![0, 0, 3] };
    assert_eq!(decode(&b), Err(InventoryError::InvalidInput));
}

#[test]
fn decode_value_over_u64_range_fails_with_invalid_input() {
    // words denote 2^64 exactly: one past the representable range.
    let b = BoundaryInt { negative: false, words: vec![0, 1] };
    assert_eq!(decode(&b), Err(InventoryError::InvalidInput));
}

#[test]
fn decode_far_over_u64_range_fails_with_invalid_input() {
    let b = BoundaryInt { negative: false, words: vec![u64::MAX, u64::MAX, u64::MAX] };
    assert_eq!(decode(&b), Err(InventoryError::InvalidInput));
}

#[test]
fn decode_negative_zero_is_zero() {
    // A set sign flag over a zero magnitude still denotes zero.
    let b = BoundaryInt { negative: true, words: vec![0] };
    assert_eq!(decode(&b), Ok(0));
}

#[test]
fn decode_empty_words_is_zero() {
    let b = BoundaryInt { negative: false, words: vec![] };
    assert_eq!(decode(&b), Ok(0));
}

#[test]
fn decode_ignores_redundant_zero_high_words() {
    let b = BoundaryInt { negative: false, words: vec![7, 0, 0] };
    assert_eq!(decode(&b), Ok(7));
}
