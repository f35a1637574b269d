//! Identifier codec: lossless conversion between the native 64-bit
//! unsigned identifiers and the host's boundary-safe integer shape.
//!
//! The host's numeric type cannot safely represent every 64-bit integer,
//! so identifiers cross the boundary as a sign-magnitude big integer:
//! a sign flag and little-endian base-2^64 magnitude words. The codec is
//! pure: no side effects, no native calls.

use vstd::prelude::*;
use crate::errors::InventoryError;

verus! {

/// A boundary-safe integer: the shape in which identifiers cross the
/// host boundary. The value is
/// `(-1)^negative * (words[0] + words[1]*2^64 + words[2]*2^128 + ...)`.
/// Any word vector is admitted, including an empty one (value zero) and
/// ones with redundant zero high words.
#[derive(Clone, Debug)]
pub struct BoundaryInt {
    /// True for negative values. A zero magnitude with the flag set still
    /// denotes the value zero.
    pub negative: bool,
    /// Little-endian base-2^64 magnitude words.
    pub words: Vec<u64>,
}

/// The magnitude denoted by little-endian base-2^64 words.
pub open spec fn words_value(s: Seq<u64>) -> int
    decreases s.len(),
{
    if s.len() == 0 {
        0
    } else {
        s[0] + words_value(s.skip(1)) * 0x1_0000_0000_0000_0000
    }
}

/// The signed mathematical value a `BoundaryInt` denotes.
pub open spec fn boundary_value(b: BoundaryInt) -> int {
    if b.negative {
        -words_value(b.words@)
    } else {
        words_value(b.words@)
    }
}

/// What decoding a boundary integer yields: its value as a `u64` when the
/// value lies in `0 ..= u64::MAX`, and nothing otherwise.
pub open spec fn decode_spec(b: BoundaryInt) -> Option<u64> {
    if 0 <= boundary_value(b) <= u64::MAX {
        Some(boundary_value(b) as u64)
    } else {
        None
    }
}

proof fn lemma_words_value_nonneg(s: Seq<u64>)
    ensures
        words_value(s) >= 0,
    decreases s.len(),
{
    if s.len() > 0 {
        lemma_words_value_nonneg(s.skip(1));
        assert(words_value(s.skip(1)) * 0x1_0000_0000_0000_0000 >= 0) by (nonlinear_arith)
            requires
                words_value(s.skip(1)) >= 0,
        ;
    }
}

proof fn lemma_words_value_all_zero(s: Seq<u64>)
    requires
        forall|j: int| 0 <= j < s.len() ==> s[j] == 0,
    ensures
        words_value(s) == 0,
    decreases s.len(),
{
    if s.len() > 0 {
        let t = s.skip(1);
        assert(forall|j: int| 0 <= j < t.len() ==> t[j] == s[j + 1] && s[j + 1] == 0);
        lemma_words_value_all_zero(t);
    }
}

proof fn lemma_words_value_high_zero(s: Seq<u64>)
    requires
        s.len() >= 1,
        forall|j: int| 1 <= j < s.len() ==> s[j] == 0,
    ensures
        words_value(s) == s[0],
{
    let t = s.skip(1);
    assert(forall|j: int| 0 <= j < t.len() ==> t[j] == s[j + 1] && s[j + 1] == 0);
    lemma_words_value_all_zero(t);
}

proof fn lemma_words_value_pos(s: Seq<u64>, j: int)
    requires
        0 <= j < s.len(),
        s[j] != 0,
    ensures
        words_value(s) >= 1,
    decreases s.len(),
{
    let t = s.skip(1);
    if j == 0 {
        lemma_words_value_nonneg(t);
        assert(words_value(t) * 0x1_0000_0000_0000_0000 >= 0) by (nonlinear_arith)
            requires
                words_value(t) >= 0,
        ;
    } else {
        assert(t[j - 1] == s[j]);
        lemma_words_value_pos(t, j - 1);
        assert(words_value(t) * 0x1_0000_0000_0000_0000 >= 0x1_0000_0000_0000_0000)
            by (nonlinear_arith)
            requires
                words_value(t) >= 1,
        ;
    }
}

proof fn lemma_words_value_overflow(s: Seq<u64>, j: int)
    requires
        1 <= j < s.len(),
        s[j] != 0,
    ensures
        words_value(s) > u64::MAX,
{
    let t = s.skip(1);
    assert(t[j - 1] == s[j]);
    lemma_words_value_pos(t, j - 1);
    assert(words_value(t) * 0x1_0000_0000_0000_0000 >= 0x1_0000_0000_0000_0000)
        by (nonlinear_arith)
        requires
            words_value(t) >= 1,
    ;
}

/// Lossless forward conversion: a 64-bit identifier becomes a
/// non-negative boundary integer that decodes back to exactly the same
/// identifier (the round-trip law, stated over `decode_spec`).
pub fn encode(x: u64) -> (b: BoundaryInt)
    ensures
        !b.negative,
        boundary_value(b) == x,
        decode_spec(b) == Some(x),
{
    let words: Vec<u64> = vec![x];
    let b = BoundaryInt { negative: false, words };
    proof {
        let s = b.words@;
        assert(s.skip(1).len() == 0);
        assert(words_value(s.skip(1)) == 0);
        assert(words_value(s) == x + 0 * 0x1_0000_0000_0000_0000);
    }
    b
}

/// Lossless backward conversion. Yields the identifier exactly when the
/// boundary value lies in `0 ..= u64::MAX`; a negative value or one
/// exceeding the 64-bit unsigned range is rejected with `InvalidInput`.
pub fn decode(b: &BoundaryInt) -> (r: Result<u64, InventoryError>)
    ensures
        decode_spec(*b) matches Some(x) ==> r == Ok::<u64, InventoryError>(x),
        decode_spec(*b) is None ==> r == Err::<u64, InventoryError>(InventoryError::InvalidInput),
        r is Err <==> boundary_value(*b) < 0 || boundary_value(*b) > u64::MAX,
{
    if b.words.len() == 0 {
        proof {
            lemma_words_value_all_zero(b.words@);
        }
        return Ok(0);
    }
    let mut i: usize = 1;
    while i < b.words.len()
        invariant
            1 <= i <= b.words@.len(),
            forall|j: int| 1 <= j < i ==> b.words@[j] == 0,
        decreases b.words@.len() - i,
    {
        if b.words[i] != 0 {
            proof {
                lemma_words_value_overflow(b.words@, i as int);
                lemma_words_value_nonneg(b.words@);
            }
            return Err(InventoryError::InvalidInput);
        }
        i = i + 1;
    }
    proof {
        lemma_words_value_high_zero(b.words@);
    }
    let low = b.words[0];
    if b.negative && low > 0 {
        return Err(InventoryError::InvalidInput);
    }
    Ok(low)
}

} // verus!
