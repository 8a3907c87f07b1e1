//! The bits of a 64-bit word, seen as a set of positions.
//!
//! Position 0 is the least significant bit, position 63 the most significant
//! one. Everything a board says about its members goes back to the facts
//! proved here.
use vstd::prelude::*;
use vstd::std_specs::bits::{axiom_u64_trailing_zeros, u64_trailing_zeros};
use vstd::set_lib::{lemma_int_range, lemma_len_subset, lemma_set_difference_len, set_int_range};

verus! {

/// Whether `bits` has a one at position `index`. Positions outside `0..64`
/// hold no bit.
pub open spec fn bit_at(bits: u64, index: int) -> bool {
    0 <= index < 64 && bits & (1u64 << (index as u64)) != 0
}

/// The positions at which `bits` has a one.
pub open spec fn positions(bits: u64) -> Set<int> {
    Set::new(|index: int| bit_at(bits, index))
}

/// The 64 positions of a word.
pub open spec fn all_positions() -> Set<int> {
    set_int_range(0, 64)
}

/// The number of ones in `bits`.
pub open spec fn ones(bits: u64) -> nat {
    positions(bits).len()
}

/// `u64::count_ones` of the standard library, which its documentation
/// describes as the number of ones in the binary representation of the word.
/// Nothing here proves it: the claim is that the count it returns is the
/// number of positions at which the word has a one.
pub assume_specification[ u64::count_ones ](word: u64) -> (count: u32)
    ensures
        count == ones(word),
;

proof fn lemma_connectives_at(a: u64, b: u64, k: u64)
    by (bit_vector)
    requires
        k < 64,
    ensures
        ((a | b) & (1u64 << k) != 0) == (a & (1u64 << k) != 0 || b & (1u64 << k) != 0),
        ((a & b) & (1u64 << k) != 0) == (a & (1u64 << k) != 0 && b & (1u64 << k) != 0),
        ((a ^ b) & (1u64 << k) != 0) == ((a & (1u64 << k) != 0) != (b & (1u64 << k) != 0)),
        ((!a) & (1u64 << k) != 0) == (a & (1u64 << k) == 0),
{
}

proof fn lemma_single_at(i: u64, k: u64)
    by (bit_vector)
    requires
        i < 64,
        k < 64,
    ensures
        ((1u64 << i) & (1u64 << k) != 0) == (i == k),
{
}

proof fn lemma_shl_at(a: u64, n: u64, k: u64)
    by (bit_vector)
    requires
        n < 64,
        k < 64,
    ensures
        ((a << n) & (1u64 << k) != 0) == (n <= k && a & (1u64 << ((k - n) as u64)) != 0),
{
}

proof fn lemma_constants_at(k: u64)
    by (bit_vector)
    requires
        k < 64,
    ensures
        0u64 & (1u64 << k) == 0,
        0xffff_ffff_ffff_ffffu64 & (1u64 << k) != 0,
{
}

proof fn lemma_differ_at(a: u64, b: u64, k: u64)
    by (bit_vector)
    requires
        k < 64,
        ((a ^ b) >> k) & 1 == 1,
    ensures
        (a & (1u64 << k) != 0) != (b & (1u64 << k) != 0),
{
}

proof fn lemma_xor_zero(a: u64, b: u64)
    by (bit_vector)
    requires
        a ^ b == 0,
    ensures
        a == b,
{
}

/// The low 32 bits of a word, taken as a shift count, leave the word's
/// remainder modulo 64.
pub proof fn lemma_count_of_word(word: u64)
    ensures
        (word as u32) == word % 0x1_0000_0000,
        (word as u32) % 64 == word % 64,
{
    assert((word as u32) == word % 0x1_0000_0000) by (bit_vector);
    assert((word as u32) % 64 == word % 64) by (bit_vector);
}

/// The low 32 bits of an integer, taken as a shift count, leave the
/// integer's remainder modulo 64, which is never negative.
pub proof fn lemma_count_of_integer(count: i64)
    ensures
        (count as u32) == count % 0x1_0000_0000,
        (count as u32) % 64 == count % 64,
{
    assert((count as u32) == count % 0x1_0000_0000) by (bit_vector);
    assert((count as u32) % 64 == count % 64) by (bit_vector);
}

/// The ones of `a | b` are those of `a` together with those of `b`.
pub proof fn lemma_positions_or(a: u64, b: u64)
    ensures
        positions(a | b) == positions(a).union(positions(b)),
{
    assert forall|i: int| bit_at(a | b, i) == (bit_at(a, i) || bit_at(b, i)) by {
        if 0 <= i < 64 {
            lemma_connectives_at(a, b, i as u64);
        }
    }
    assert(positions(a | b) =~= positions(a).union(positions(b)));
}

/// The ones of `a & b` are those that `a` and `b` share.
pub proof fn lemma_positions_and(a: u64, b: u64)
    ensures
        positions(a & b) == positions(a).intersect(positions(b)),
{
    assert forall|i: int| bit_at(a & b, i) == (bit_at(a, i) && bit_at(b, i)) by {
        if 0 <= i < 64 {
            lemma_connectives_at(a, b, i as u64);
        }
    }
    assert(positions(a & b) =~= positions(a).intersect(positions(b)));
}

/// The ones of `a ^ b` are those that exactly one of `a` and `b` has.
pub proof fn lemma_positions_xor(a: u64, b: u64)
    ensures
        positions(a ^ b) == positions(a).difference(positions(b)).union(
            positions(b).difference(positions(a)),
        ),
{
    assert forall|i: int| bit_at(a ^ b, i) == (bit_at(a, i) != bit_at(b, i)) by {
        if 0 <= i < 64 {
            lemma_connectives_at(a, b, i as u64);
        }
    }
    assert(positions(a ^ b) =~= positions(a).difference(positions(b)).union(
        positions(b).difference(positions(a)),
    ));
}

/// The ones of `!a` are the positions at which `a` has a zero.
pub proof fn lemma_positions_not(a: u64)
    ensures
        positions(!a) == all_positions().difference(positions(a)),
{
    assert forall|i: int| bit_at(!a, i) == (0 <= i < 64 && !bit_at(a, i)) by {
        if 0 <= i < 64 {
            lemma_connectives_at(a, a, i as u64);
        }
    }
    assert(positions(!a) =~= all_positions().difference(positions(a)));
}

/// `1 << index` has its only one at `index`.
pub proof fn lemma_positions_single(index: u64)
    requires
        index < 64,
    ensures
        positions(1u64 << index) == Set::<int>::empty().insert(index as int),
{
    assert forall|i: int| bit_at(1u64 << index, i) == (i == index) by {
        if 0 <= i < 64 {
            lemma_single_at(index, i as u64);
        }
    }
    assert(positions(1u64 << index) =~= Set::<int>::empty().insert(index as int));
}

/// Zero has no ones, and the word of all ones has one at each position.
pub proof fn lemma_positions_constants()
    ensures
        positions(0) == Set::<int>::empty(),
        positions(0xffff_ffff_ffff_ffff) == all_positions(),
{
    assert forall|i: int|
        !bit_at(0, i) && bit_at(0xffff_ffff_ffff_ffff, i) == (0 <= i < 64) by {
        if 0 <= i < 64 {
            lemma_constants_at(i as u64);
        }
    }
    assert(positions(0) =~= Set::<int>::empty());
    assert(positions(0xffff_ffff_ffff_ffff) =~= all_positions());
}

/// A shift to the left by `count` moves each one up by `count` places and
/// drops those that would pass position 63.
pub proof fn lemma_positions_shl(a: u64, count: u64)
    requires
        count < 64,
    ensures
        forall|i: int| bit_at(a << count, i) == (i < 64 && bit_at(a, i - count)),
{
    assert forall|i: int| bit_at(a << count, i) == (i < 64 && bit_at(a, i - count)) by {
        if 0 <= i < 64 {
            lemma_shl_at(a, count, i as u64);
        }
    }
}

/// A word has at most 64 ones.
pub proof fn lemma_positions_bounded(a: u64)
    ensures
        positions(a).finite(),
        positions(a).subset_of(all_positions()),
        all_positions().finite(),
        all_positions().len() == 64,
        ones(a) <= 64,
{
    lemma_int_range(0, 64);
    lemma_len_subset(positions(a), all_positions());
}

/// A word and its complement have 64 ones between them.
pub proof fn lemma_ones_not(a: u64)
    ensures
        ones(a) + ones(!a) == 64,
{
    lemma_positions_bounded(a);
    lemma_positions_not(a);
    lemma_set_difference_len(all_positions(), positions(a));
    assert(all_positions().intersect(positions(a)) =~= positions(a));
}

/// Two words with their ones at the same positions are the same word.
pub proof fn lemma_positions_injective(a: u64, b: u64)
    requires
        positions(a) == positions(b),
    ensures
        a == b,
{
    if a != b {
        let k = u64_trailing_zeros(a ^ b) as u64;
        axiom_u64_trailing_zeros(a ^ b);
        if a ^ b == 0 {
            lemma_xor_zero(a, b);
        }
        lemma_differ_at(a, b, k);
        assert(bit_at(a, k as int) != bit_at(b, k as int));
        assert(positions(a).contains(k as int) == bit_at(a, k as int));
        assert(positions(b).contains(k as int) == bit_at(b, k as int));
    }
}

} // verus!
