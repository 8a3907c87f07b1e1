//! What holds of every board: the laws of the set algebra, of the population
//! count, and of putting an index in and taking it out again.
//!
//! Each law is stated over the operations themselves, as they read in a
//! contract, and is proved from the words behind the boards.
use crate::repr::board::bits::{
    lemma_ones_not, lemma_positions_bounded, lemma_positions_constants,
    lemma_positions_injective,
};
use crate::repr::board::square::{File, RangeError, Rank, Square};
use crate::repr::board::BitBoard;
use vstd::prelude::*;

verus! {

/// A board holds indices below 64 only, and so at most 64 of them.
pub proof fn lemma_view_bounded(a: BitBoard)
    ensures
        a@.finite(),
        a@.len() <= 64,
        forall|index: int| a@.contains(index) ==> 0 <= index < 64,
{
    lemma_positions_bounded(a.bits());
}

/// Two boards that hold the same indices are the same board.
pub proof fn lemma_view_injective(a: BitBoard, b: BitBoard)
    requires
        a@ == b@,
    ensures
        a == b,
{
    BitBoard::lemma_word_roundtrip();
    lemma_positions_injective(a.bits(), b.bits());
}

/// The empty board holds nothing: its population count is 0.
pub proof fn lemma_count_empty()
    ensures
        BitBoard::empty()@ == Set::<int>::empty(),
        BitBoard::empty()@.len() == 0,
{
    BitBoard::lemma_word_roundtrip();
    lemma_positions_constants();
}

/// The complement of the empty board holds all 64 indices: its population
/// count is 64.
pub proof fn lemma_count_full()
    ensures
        BitBoard::empty().complement()@ == Set::new(|index: int| 0 <= index < 64),
        BitBoard::empty().complement()@.len() == 64,
{
    lemma_count_empty();
    lemma_count_complement(BitBoard::empty());
    BitBoard::lemma_word_roundtrip();
    lemma_positions_constants();
    assert(!0u64 == 0xffff_ffff_ffff_ffffu64) by (bit_vector);
    assert(BitBoard::empty().complement()@ =~= Set::new(|index: int| 0 <= index < 64));
}

/// The population counts of a board and of its complement add up to 64.
pub proof fn lemma_count_complement(a: BitBoard)
    ensures
        a@.len() + a.complement()@.len() == 64,
{
    BitBoard::lemma_word_roundtrip();
    lemma_ones_not(a.bits());
}

/// Union is commutative.
pub proof fn lemma_union_commutative(a: BitBoard, b: BitBoard)
    ensures
        a.union(b) == b.union(a),
{
    let (x, y) = (a.bits(), b.bits());
    assert(x | y == y | x) by (bit_vector);
}

/// Union is associative.
pub proof fn lemma_union_associative(a: BitBoard, b: BitBoard, c: BitBoard)
    ensures
        a.union(b).union(c) == a.union(b.union(c)),
{
    BitBoard::lemma_word_roundtrip();
    let (x, y, z) = (a.bits(), b.bits(), c.bits());
    assert((x | y) | z == x | (y | z)) by (bit_vector);
}

/// Intersection is commutative.
pub proof fn lemma_intersect_commutative(a: BitBoard, b: BitBoard)
    ensures
        a.intersect(b) == b.intersect(a),
{
    let (x, y) = (a.bits(), b.bits());
    assert(x & y == y & x) by (bit_vector);
}

/// Intersection is associative.
pub proof fn lemma_intersect_associative(a: BitBoard, b: BitBoard, c: BitBoard)
    ensures
        a.intersect(b).intersect(c) == a.intersect(b.intersect(c)),
{
    BitBoard::lemma_word_roundtrip();
    let (x, y, z) = (a.bits(), b.bits(), c.bits());
    assert((x & y) & z == x & (y & z)) by (bit_vector);
}

/// A board and its complement share no index: their intersection is the
/// empty board.
pub proof fn lemma_intersect_complement(a: BitBoard)
    ensures
        a.intersect(a.complement()) == BitBoard::empty(),
        a.intersect(a.complement())@ == Set::<int>::empty(),
{
    BitBoard::lemma_word_roundtrip();
    let x = a.bits();
    assert(x & !x == 0) by (bit_vector);
    lemma_count_empty();
}

/// A board and its complement hold every index between them: their union is
/// the full board, the complement of the empty one.
pub proof fn lemma_union_complement(a: BitBoard)
    ensures
        a.union(a.complement()) == BitBoard::empty().complement(),
        a.union(a.complement())@ == Set::new(|index: int| 0 <= index < 64),
{
    BitBoard::lemma_word_roundtrip();
    let x = a.bits();
    assert(x | !x == !0u64) by (bit_vector);
    lemma_count_full();
}

/// The symmetric difference of a board with itself is the empty board.
pub proof fn lemma_symmetric_difference_self(a: BitBoard)
    ensures
        a.symmetric_difference(a) == BitBoard::empty(),
        a.symmetric_difference(a)@ == Set::<int>::empty(),
{
    let x = a.bits();
    assert(x ^ x == 0) by (bit_vector);
    lemma_count_empty();
}

/// The complement of the complement of a board is the board.
pub proof fn lemma_complement_involution(a: BitBoard)
    ensures
        a.complement().complement() == a,
{
    BitBoard::lemma_word_roundtrip();
    let x = a.bits();
    assert(!!x == x) by (bit_vector);
}

/// To take an index out of a board after putting it in is to take it out of
/// the board as it was.
pub proof fn lemma_remove_with(m: BitBoard, idx: u8)
    requires
        idx < 64,
    ensures
        m.with(idx).remove(idx) == m.remove(idx),
{
    BitBoard::lemma_word_roundtrip();
    let (x, bit) = (m.bits(), 1u64 << idx);
    assert((x | bit) & !bit == x & !bit) by (bit_vector);
}

/// A board holds an index once it has been put in, whether or not it held
/// the index before.
pub proof fn lemma_with_contains(m: BitBoard, idx: u8)
    requires
        idx < 64,
    ensures
        m.with(idx).contains(idx),
{
    BitBoard::lemma_word_roundtrip();
    let x = m.bits();
    assert((x | (1u64 << idx)) & (1u64 << idx) != 0) by (bit_vector)
        requires
            idx < 64,
    ;
}

/// Every index below 64 is the index of a square, and of the square that
/// `from_index` gives for it.
pub proof fn lemma_index_roundtrip(index: u8)
    requires
        index < 64,
    ensures
        Square::from_index(index) matches Some(square) && square.to_index() == index,
{
}

/// Every square is the one that `from_index` gives for its index, so that no
/// two squares share an index.
pub proof fn lemma_square_roundtrip(square: Square)
    ensures
        square.to_index() < 64,
        Square::from_index(square.to_index()) == Some(square),
{
}

/// A rank is the one that its numeral names, and a file likewise.
pub proof fn lemma_numeral_roundtrip(rank: Rank, file: File)
    ensures
        Rank::from_numeral(rank.numeral()) == Ok::<Rank, RangeError>(rank),
        File::from_numeral(file.numeral()) == Ok::<File, RangeError>(file),
{
}

/// A small letter and its capital name the same file: for each of `a` to
/// `h`, the capital stands 32 places before it among the characters.
pub proof fn lemma_file_case(small: char, capital: char)
    requires
        'a' <= small <= 'h',
        capital as int == small as int - 32,
    ensures
        File::from_char(capital) is Ok,
        File::from_char(capital) == File::from_char(small),
{
}

} // verus!
