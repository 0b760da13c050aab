//! Ordering and classification of IEEE 754 double-precision values through
//! their 64-bit patterns.
//!
//! The rest of the crate stores every numeric measurement as the raw bit
//! pattern of a double-precision value.  This module gives those patterns a
//! total order (`sort_key`), detects NaN patterns, and defines the running
//! minimum and maximum used for axis bounds.  On patterns that encode
//! ordinary (non-NaN) values, `sort_key` order agrees with the numeric order
//! of the encoded values, with negative zero placed just below positive zero.

use vstd::prelude::*;

verus! {

/// Bit pattern of positive infinity: exponent field all ones, mantissa zero.
pub const POS_INFINITY_BITS: u64 = 0x7FF0_0000_0000_0000;

/// Bit pattern of negative infinity: sign set, exponent all ones, mantissa zero.
pub const NEG_INFINITY_BITS: u64 = 0xFFF0_0000_0000_0000;

/// A pattern encodes NaN exactly when its exponent field is all ones and its
/// mantissa field is non-zero.
pub open spec fn is_nan_bits(b: u64) -> bool {
    (b >> 52) & 0x7FF == 0x7FF && (b & 0x000F_FFFF_FFFF_FFFF) != 0
}

/// Runtime test for a NaN pattern.
pub fn nan_bits(b: u64) -> (r: bool)
    ensures
        r == is_nan_bits(b),
{
    (b >> 52) & 0x7FF == 0x7FF && (b & 0x000F_FFFF_FFFF_FFFF) != 0
}

/// Monotone key: flips a negative pattern entirely and sets the top bit of a
/// non-negative one, so that unsigned comparison of keys orders patterns as
/// the encoded values are ordered (negatives below positives, and within the
/// negatives larger magnitudes first).
pub open spec fn sort_key(b: u64) -> u64 {
    if b >= 0x8000_0000_0000_0000 {
        !b
    } else {
        b ^ 0x8000_0000_0000_0000
    }
}

/// Runtime computation of `sort_key`.
pub fn order_key(b: u64) -> (k: u64)
    ensures
        k == sort_key(b),
{
    if b >= 0x8000_0000_0000_0000 {
        !b
    } else {
        b ^ 0x8000_0000_0000_0000
    }
}

/// The order the crate sorts and compares measurements by.
pub open spec fn le_bits(a: u64, b: u64) -> bool {
    sort_key(a) <= sort_key(b)
}

/// Runtime comparison: `a` at or below `b` in the measurement order.
pub fn bits_le(a: u64, b: u64) -> (r: bool)
    ensures
        r == le_bits(a, b),
{
    order_key(a) <= order_key(b)
}

/// Runtime comparison: `a` strictly below `b` in the measurement order.
pub fn bits_lt(a: u64, b: u64) -> (r: bool)
    ensures
        r == (le_bits(a, b) && a != b),
{
    proof {
        lemma_sort_key_injective(a, b);
    }
    order_key(a) < order_key(b)
}

/// Distinct patterns have distinct keys, so `le_bits` is antisymmetric.
pub proof fn lemma_sort_key_injective(a: u64, b: u64)
    ensures
        sort_key(a) == sort_key(b) ==> a == b,
{
    assert(a >= 0x8000_0000_0000_0000 && b >= 0x8000_0000_0000_0000 && !a == !b ==> a == b)
        by (bit_vector);
    assert(a < 0x8000_0000_0000_0000 && b < 0x8000_0000_0000_0000 && a ^ 0x8000_0000_0000_0000
        == b ^ 0x8000_0000_0000_0000 ==> a == b) by (bit_vector);
    assert(a >= 0x8000_0000_0000_0000 && b < 0x8000_0000_0000_0000 ==> !a != b
        ^ 0x8000_0000_0000_0000) by (bit_vector);
    assert(a < 0x8000_0000_0000_0000 && b >= 0x8000_0000_0000_0000 ==> a ^ 0x8000_0000_0000_0000
        != !b) by (bit_vector);
}

/// One step of the running minimum: NaN inputs are skipped, otherwise the
/// key-smaller pattern is kept.
pub open spec fn min_step(acc: u64, v: u64) -> u64 {
    if is_nan_bits(v) {
        acc
    } else if sort_key(v) <= sort_key(acc) {
        v
    } else {
        acc
    }
}

/// One step of the running maximum: NaN inputs are skipped, otherwise the
/// key-larger pattern is kept.
pub open spec fn max_step(acc: u64, v: u64) -> u64 {
    if is_nan_bits(v) {
        acc
    } else if sort_key(v) >= sort_key(acc) {
        v
    } else {
        acc
    }
}

/// Running minimum of a sequence of patterns, starting from positive
/// infinity, NaN entries skipped.
pub open spec fn min_fold(s: Seq<u64>) -> u64
    decreases s.len(),
{
    if s.len() == 0 {
        POS_INFINITY_BITS
    } else {
        min_step(min_fold(s.drop_last()), s.last())
    }
}

/// Running maximum of a sequence of patterns, starting from negative
/// infinity, NaN entries skipped.
pub open spec fn max_fold(s: Seq<u64>) -> u64
    decreases s.len(),
{
    if s.len() == 0 {
        NEG_INFINITY_BITS
    } else {
        max_step(max_fold(s.drop_last()), s.last())
    }
}

/// The infinities are not NaN patterns.
pub proof fn lemma_infinities_not_nan()
    ensures
        !is_nan_bits(POS_INFINITY_BITS),
        !is_nan_bits(NEG_INFINITY_BITS),
{
    assert((0x7FF0_0000_0000_0000u64 & 0x000F_FFFF_FFFF_FFFF) == 0) by (bit_vector);
    assert((0xFFF0_0000_0000_0000u64 & 0x000F_FFFF_FFFF_FFFF) == 0) by (bit_vector);
}

/// Every non-NaN pattern lies between the two infinities in the
/// measurement order.
pub proof fn lemma_non_nan_within_infinities(b: u64)
    requires
        !is_nan_bits(b),
    ensures
        le_bits(b, POS_INFINITY_BITS),
        le_bits(NEG_INFINITY_BITS, b),
{
    assert((0x7FF0_0000_0000_0000u64 ^ 0x8000_0000_0000_0000) == 0xFFF0_0000_0000_0000u64)
        by (bit_vector);
    assert(!0xFFF0_0000_0000_0000u64 == 0x000F_FFFF_FFFF_FFFFu64) by (bit_vector);
    assert(b >= 0x8000_0000_0000_0000 ==> !b < 0x8000_0000_0000_0000) by (bit_vector);
    assert(b < 0x8000_0000_0000_0000 ==> (b ^ 0x8000_0000_0000_0000) >= 0x8000_0000_0000_0000)
        by (bit_vector);
    assert(b < 0x8000_0000_0000_0000 && !((b >> 52) & 0x7FF == 0x7FF && (b
        & 0x000F_FFFF_FFFF_FFFF) != 0) ==> (b ^ 0x8000_0000_0000_0000) <= 0xFFF0_0000_0000_0000u64)
        by (bit_vector);
    assert(b >= 0x8000_0000_0000_0000 && !((b >> 52) & 0x7FF == 0x7FF && (b
        & 0x000F_FFFF_FFFF_FFFF) != 0) ==> !b >= 0x000F_FFFF_FFFF_FFFFu64) by (bit_vector);
}

/// The running minimum is exact: it never returns a NaN pattern, it lies at
/// or below every non-NaN entry, it is one of the entries whenever any entry
/// is not NaN, and it stays at positive infinity exactly when every entry is
/// NaN.
pub proof fn lemma_min_fold_exact(s: Seq<u64>)
    ensures
        !is_nan_bits(min_fold(s)),
        forall|i: int| 0 <= i < s.len() && !is_nan_bits(#[trigger] s[i]) ==> le_bits(min_fold(s), s[i]),
        (exists|i: int| 0 <= i < s.len() && !is_nan_bits(#[trigger] s[i])) ==> (exists|i: int|
            0 <= i < s.len() && #[trigger] s[i] == min_fold(s)),
        (forall|i: int| 0 <= i < s.len() ==> is_nan_bits(#[trigger] s[i])) ==> min_fold(s)
            == POS_INFINITY_BITS,
    decreases s.len(),
{
    lemma_infinities_not_nan();
    if s.len() > 0 {
        let pre = s.drop_last();
        let last = s.last();
        lemma_min_fold_exact(pre);
        assert(forall|i: int| 0 <= i < pre.len() ==> #[trigger] pre[i] == s[i]);
        assert(s[s.len() - 1] == last);
        if !is_nan_bits(last) {
            lemma_non_nan_within_infinities(last);
            if sort_key(last) <= sort_key(min_fold(pre)) {
                assert(min_fold(s) == last);
            } else {
                assert(min_fold(s) == min_fold(pre));
                assert(exists|i: int| 0 <= i < pre.len() && !is_nan_bits(#[trigger] pre[i])) by {
                    if forall|i: int| 0 <= i < pre.len() ==> is_nan_bits(#[trigger] pre[i]) {
                        assert(min_fold(pre) == POS_INFINITY_BITS);
                    }
                }
                let w = choose|i: int| 0 <= i < pre.len() && #[trigger] pre[i] == min_fold(pre);
                assert(s[w] == min_fold(s));
            }
        } else {
            assert(min_fold(s) == min_fold(pre));
            if exists|i: int| 0 <= i < s.len() && !is_nan_bits(#[trigger] s[i]) {
                let w0 = choose|i: int| 0 <= i < s.len() && !is_nan_bits(#[trigger] s[i]);
                assert(!is_nan_bits(pre[w0]));
                let w = choose|i: int| 0 <= i < pre.len() && #[trigger] pre[i] == min_fold(pre);
                assert(s[w] == min_fold(s));
            }
        }
        assert forall|i: int| 0 <= i < s.len() && !is_nan_bits(#[trigger] s[i]) implies le_bits(
            min_fold(s),
            s[i],
        ) by {
            if i < s.len() - 1 {
                assert(pre[i] == s[i]);
                assert(le_bits(min_fold(pre), pre[i]));
            }
        }
    }
}

/// The running maximum is exact, dually to `lemma_min_fold_exact`.
pub proof fn lemma_max_fold_exact(s: Seq<u64>)
    ensures
        !is_nan_bits(max_fold(s)),
        forall|i: int| 0 <= i < s.len() && !is_nan_bits(#[trigger] s[i]) ==> le_bits(s[i], max_fold(s)),
        (exists|i: int| 0 <= i < s.len() && !is_nan_bits(#[trigger] s[i])) ==> (exists|i: int|
            0 <= i < s.len() && #[trigger] s[i] == max_fold(s)),
        (forall|i: int| 0 <= i < s.len() ==> is_nan_bits(#[trigger] s[i])) ==> max_fold(s)
            == NEG_INFINITY_BITS,
    decreases s.len(),
{
    lemma_infinities_not_nan();
    if s.len() > 0 {
        let pre = s.drop_last();
        let last = s.last();
        lemma_max_fold_exact(pre);
        assert(forall|i: int| 0 <= i < pre.len() ==> #[trigger] pre[i] == s[i]);
        assert(s[s.len() - 1] == last);
        if !is_nan_bits(last) {
            lemma_non_nan_within_infinities(last);
            if sort_key(last) >= sort_key(max_fold(pre)) {
                assert(max_fold(s) == last);
            } else {
                assert(max_fold(s) == max_fold(pre));
                assert(exists|i: int| 0 <= i < pre.len() && !is_nan_bits(#[trigger] pre[i])) by {
                    if forall|i: int| 0 <= i < pre.len() ==> is_nan_bits(#[trigger] pre[i]) {
                        assert(max_fold(pre) == NEG_INFINITY_BITS);
                    }
                }
                let w = choose|i: int| 0 <= i < pre.len() && #[trigger] pre[i] == max_fold(pre);
                assert(s[w] == max_fold(s));
            }
        } else {
            assert(max_fold(s) == max_fold(pre));
            if exists|i: int| 0 <= i < s.len() && !is_nan_bits(#[trigger] s[i]) {
                let w0 = choose|i: int| 0 <= i < s.len() && !is_nan_bits(#[trigger] s[i]);
                assert(!is_nan_bits(pre[w0]));
                let w = choose|i: int| 0 <= i < pre.len() && #[trigger] pre[i] == max_fold(pre);
                assert(s[w] == max_fold(s));
            }
        }
        assert forall|i: int| 0 <= i < s.len() && !is_nan_bits(#[trigger] s[i]) implies le_bits(
            s[i],
            max_fold(s),
        ) by {
            if i < s.len() - 1 {
                assert(pre[i] == s[i]);
                assert(le_bits(pre[i], max_fold(pre)));
            }
        }
    }
}

} // verus!
