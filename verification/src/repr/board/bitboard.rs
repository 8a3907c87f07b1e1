//! Utilities for representing a bitboard.
//!
//! A [`BitBoard`] is a set of 64 bits that represents each square on the chess board.
//! A complete board representation contains a bitboard for each piece type and color.
//! Bitboards model occupancy. That is, a 1 bit represents the presence of a piece on its
//! bitboard, where 0 represents the absence of that piece.
//!
//! ```plaintext
//! 8 . . . . . . . .
//! 7 . . . . . . . .
//! 6 . . . . . . . .
//! 5 . . . . . . . .
//! 4 . . . . . . . .
//! 3 . . . . . . . .
//! 2 . . . . . . . .
//! 1 . . . . . . . .
//!   a b c d e f g h
//! ```
use crate::repr::board::bits::{
    all_positions, lemma_count_of_integer, lemma_count_of_word, lemma_positions_and,
    lemma_positions_bounded, lemma_positions_constants, lemma_positions_not,
    lemma_positions_or, lemma_positions_shl, lemma_positions_single, lemma_positions_xor,
    positions,
};
use vstd::prelude::*;

verus! {

/// A `BitBoard` represents occupied and vacant positions on an 8x8 grid.
///
/// # Details
///
/// This BitBoard implementation uses a little-endian, file-rank mapping.
/// The index of each bit in the `BitBoard`'s internal `u64` corresponds to the board location
/// as follows:
///
/// ```plaintext
/// 8 | 56 57 58 59 60 61 62 63
/// 7 | 48 49 50 51 52 53 54 55
/// 6 | 40 41 42 43 44 45 46 47
/// 5 | 32 33 34 35 36 37 38 39
/// 4 | 24 25 26 27 28 29 30 31
/// 3 | 16 17 18 19 20 21 22 23
/// 2 | 08 09 10 11 12 13 14 15
/// 1 | 00 01 02 03 04 05 06 07
///     -----------------------
///      a  b  c  d  e  f  g  h
/// ```
///
/// In contracts a board is seen in two ways: as the set of the indices it
/// holds (its view, `board@`), and as the 64-bit word behind it
/// ([`BitBoard::bits`]), whose bit `i` is one exactly when `i` is a member.
/// Every word is a board.
#[derive(Copy, Clone, PartialEq, Eq, PartialOrd, Debug, Hash, Structural)]
pub struct BitBoard(u64);

impl View for BitBoard {
    type V = Set<int>;

    /// The indices that the board holds, each in `0..64`.
    open spec fn view(&self) -> Set<int> {
        positions(self.bits())
    }
}

impl BitBoard {
    /// The word behind the board.
    pub closed spec fn bits(self) -> u64 {
        self.0
    }

    /// The board behind a word.
    pub closed spec fn from_bits(bits: u64) -> BitBoard {
        BitBoard(bits)
    }

    /// A board is its word and nothing more: `bits` and `from_bits` undo
    /// each other, and two boards with the same word are the same board.
    pub proof fn lemma_word_roundtrip()
        ensures
            forall|bits: u64| #[trigger] BitBoard::from_bits(bits).bits() == bits,
            forall|board: BitBoard| #[trigger] BitBoard::from_bits(board.bits()) == board,
            forall|a: BitBoard, b: BitBoard|
                #![trigger a.bits(), b.bits()]
                a.bits() == b.bits() ==> a == b,
    {
    }

    /// What [`BitBoard::empty`] returns.
    pub open spec fn spec_empty() -> BitBoard {
        BitBoard::from_bits(0)
    }

    /// The board that holds no index.
    #[verifier::when_used_as_spec(spec_empty)]
    pub fn empty() -> (board: BitBoard)
        ensures
            board == BitBoard::spec_empty(),
            board.bits() == 0,
            board@ == Set::<int>::empty(),
    {
        proof {
            lemma_positions_constants();
        }
        BitBoard(0)
    }

    /// What [`BitBoard::contains`] returns.
    pub open spec fn spec_contains(&self, idx: u8) -> bool {
        self@.contains(idx as int)
    }

    /// Whether the board holds `idx`, which must be below 64: there is no
    /// bit for another index to test.
    #[verifier::when_used_as_spec(spec_contains)]
    pub fn contains(&self, idx: u8) -> (held: bool)
        requires
            idx < 64,
        ensures
            held == self.spec_contains(idx),
            held == self@.contains(idx as int),
            held == (self.bits() & (1u64 << idx) != 0),
    {
        self.0 & (1u64 << idx) != 0
    }

    /// The number of occupied squares on the `BitBoard`.
    pub fn population_count(&self) -> (count: u8)
        ensures
            count == self@.len(),
            count <= 64,
    {
        proof {
            lemma_positions_bounded(self.0);
        }
        self.0.count_ones() as u8
    }

    /// What [`BitBoard::with`] returns, and what [`BitBoard::set`] leaves.
    pub open spec fn spec_with(&self, idx: u8) -> BitBoard {
        BitBoard::from_bits(self.bits() | (1u64 << idx))
    }

    /// What [`BitBoard::remove`] returns, and what [`BitBoard::unset`]
    /// leaves.
    pub open spec fn spec_remove(&self, idx: u8) -> BitBoard {
        BitBoard::from_bits(self.bits() & !(1u64 << idx))
    }

    /// Sets a bit in the BitBoard: afterwards the board holds `idx` and what
    /// it held before. `idx` must be below 64.
    pub fn set(&mut self, idx: u8)
        requires
            idx < 64,
        ensures
            *final(self) == old(self).spec_with(idx),
            final(self).bits() == old(self).bits() | (1u64 << idx),
            final(self)@ == old(self)@.insert(idx as int),
    {
        proof {
            lemma_positions_or(self.0, 1u64 << idx);
            lemma_positions_single(idx as u64);
            assert(positions(self.0 | (1u64 << idx)) =~= positions(self.0).insert(idx as int));
        }
        self.0 = self.0 | (1u64 << idx);
    }

    /// Unsets a bit in the BitBoard: afterwards the board holds what it held
    /// before but for `idx`. `idx` must be below 64.
    pub fn unset(&mut self, idx: u8)
        requires
            idx < 64,
        ensures
            *final(self) == old(self).spec_remove(idx),
            final(self).bits() == old(self).bits() & !(1u64 << idx),
            final(self)@ == old(self)@.remove(idx as int),
    {
        proof {
            lemma_positions_and(self.0, !(1u64 << idx));
            lemma_positions_not(1u64 << idx);
            lemma_positions_single(idx as u64);
            lemma_positions_bounded(self.0);
            assert(positions(self.0 & !(1u64 << idx)) =~= positions(self.0).remove(idx as int));
        }
        self.0 = self.0 & !(1u64 << idx);
    }

    /// Returns a copied BitBoard with the given bit set. `idx` must be below
    /// 64.
    #[verifier::when_used_as_spec(spec_with)]
    pub fn with(&self, idx: u8) -> (board: BitBoard)
        requires
            idx < 64,
        ensures
            board == self.spec_with(idx),
            board.bits() == self.bits() | (1u64 << idx),
            board@ == self@.insert(idx as int),
    {
        let mut board = *self;
        board.set(idx);
        board
    }

    /// Returns a copied BitBoard with the given bit unset. `idx` must be
    /// below 64.
    #[verifier::when_used_as_spec(spec_remove)]
    pub fn remove(&self, idx: u8) -> (board: BitBoard)
        requires
            idx < 64,
        ensures
            board == self.spec_remove(idx),
            board.bits() == self.bits() & !(1u64 << idx),
            board@ == self@.remove(idx as int),
    {
        let mut board = *self;
        board.unset(idx);
        board
    }
}

impl BitBoard {
    /// What [`BitBoard::union`] returns.
    pub open spec fn spec_union(self, other: BitBoard) -> BitBoard {
        BitBoard::from_bits(self.bits() | other.bits())
    }

    /// The board of the indices that `self` or `other` holds.
    #[verifier::when_used_as_spec(spec_union)]
    pub fn union(self, other: BitBoard) -> (board: BitBoard)
        ensures
            board == self.spec_union(other),
            board.bits() == self.bits() | other.bits(),
            board@ == self@.union(other@),
    {
        proof {
            lemma_positions_or(self.0, other.0);
        }
        BitBoard(self.0 | other.0)
    }

    /// What [`BitBoard::intersect`] returns.
    pub open spec fn spec_intersect(self, other: BitBoard) -> BitBoard {
        BitBoard::from_bits(self.bits() & other.bits())
    }

    /// The board of the indices that both `self` and `other` hold.
    #[verifier::when_used_as_spec(spec_intersect)]
    pub fn intersect(self, other: BitBoard) -> (board: BitBoard)
        ensures
            board == self.spec_intersect(other),
            board.bits() == self.bits() & other.bits(),
            board@ == self@.intersect(other@),
    {
        proof {
            lemma_positions_and(self.0, other.0);
        }
        BitBoard(self.0 & other.0)
    }

    /// What [`BitBoard::symmetric_difference`] returns.
    pub open spec fn spec_symmetric_difference(self, other: BitBoard) -> BitBoard {
        BitBoard::from_bits(self.bits() ^ other.bits())
    }

    /// The board of the indices that exactly one of `self` and `other` holds.
    #[verifier::when_used_as_spec(spec_symmetric_difference)]
    pub fn symmetric_difference(self, other: BitBoard) -> (board: BitBoard)
        ensures
            board == self.spec_symmetric_difference(other),
            board.bits() == self.bits() ^ other.bits(),
            board@ == self@.difference(other@).union(other@.difference(self@)),
    {
        proof {
            lemma_positions_xor(self.0, other.0);
        }
        BitBoard(self.0 ^ other.0)
    }

    /// What [`BitBoard::complement`] returns.
    pub open spec fn spec_complement(self) -> BitBoard {
        BitBoard::from_bits(!self.bits())
    }

    /// The board of the indices below 64 that `self` does not hold.
    #[verifier::when_used_as_spec(spec_complement)]
    pub fn complement(self) -> (board: BitBoard)
        ensures
            board == self.spec_complement(),
            board.bits() == !self.bits(),
            board@ == all_positions().difference(self@),
    {
        proof {
            lemma_positions_not(self.0);
        }
        BitBoard(!self.0)
    }

    /// What [`BitBoard::shift_left`] returns.
    pub open spec fn spec_shift_left(self, count: u32) -> BitBoard {
        BitBoard::from_bits(self.bits() << (count % 64))
    }

    /// Moves each index up by `count` places. The count is taken modulo 64,
    /// so that a shift by 64 changes nothing and a shift by 65 is a shift by
    /// 1. An index that would pass 63 leaves the board; none comes back in
    /// at the low end.
    #[verifier::when_used_as_spec(spec_shift_left)]
    pub fn shift_left(self, count: u32) -> (board: BitBoard)
        ensures
            board == self.spec_shift_left(count),
            board.bits() == self.bits() << (count % 64),
            forall|index: int|
                board@.contains(index) == (index < 64 && self@.contains(index - count % 64)),
    {
        proof {
            lemma_positions_shl(self.0, (count % 64) as u64);
        }
        BitBoard(self.0.wrapping_shl(count))
    }

    /// What [`BitBoard::multiply`] returns.
    pub open spec fn spec_multiply(self, other: BitBoard) -> BitBoard {
        BitBoard::from_bits(
            ((self.bits() * other.bits()) % 0x1_0000_0000_0000_0000) as u64,
        )
    }

    /// The product of the two words, of which the low 64 bits are kept.
    #[verifier::when_used_as_spec(spec_multiply)]
    pub fn multiply(self, other: BitBoard) -> (board: BitBoard)
        ensures
            board == self.spec_multiply(other),
            board.bits() == (self.bits() * other.bits()) % 0x1_0000_0000_0000_0000,
    {
        BitBoard(self.0.wrapping_mul(other.0))
    }
}

impl Default for BitBoard {
    /// The empty board.
    fn default() -> (board: BitBoard)
        ensures
            board == BitBoard::empty(),
            board@ == Set::<int>::empty(),
    {
        BitBoard::empty()
    }
}

impl vstd::std_specs::convert::FromSpecImpl<u64> for BitBoard {
    open spec fn obeys_from_spec() -> bool {
        true
    }

    open spec fn from_spec(value: u64) -> BitBoard {
        BitBoard::from_bits(value)
    }
}

impl From<u64> for BitBoard {
    /// The board whose word is `value`: it holds `i` exactly when bit `i` of
    /// `value` is one.
    fn from(value: u64) -> (board: BitBoard)
        ensures
            board == BitBoard::from_bits(value),
            board.bits() == value,
    {
        BitBoard(value)
    }
}

impl vstd::std_specs::ops::BitAndSpecImpl for BitBoard {
    open spec fn obeys_bitand_spec() -> bool {
        true
    }

    open spec fn bitand_req(self, rhs: BitBoard) -> bool {
        true
    }

    open spec fn bitand_spec(self, rhs: BitBoard) -> BitBoard {
        self.intersect(rhs)
    }
}

impl std::ops::BitAnd for BitBoard {
    type Output = BitBoard;

    /// `a & b` is `a.intersect(b)`.
    #[inline]
    fn bitand(self, rhs: BitBoard) -> (board: BitBoard)
        ensures
            board == self.intersect(rhs),
    {
        self.intersect(rhs)
    }
}

impl vstd::std_specs::ops::BitOrSpecImpl for BitBoard {
    open spec fn obeys_bitor_spec() -> bool {
        true
    }

    open spec fn bitor_req(self, rhs: BitBoard) -> bool {
        true
    }

    open spec fn bitor_spec(self, rhs: BitBoard) -> BitBoard {
        self.union(rhs)
    }
}

impl std::ops::BitOr for BitBoard {
    type Output = BitBoard;

    /// `a | b` is `a.union(b)`.
    #[inline]
    fn bitor(self, rhs: BitBoard) -> (board: BitBoard)
        ensures
            board == self.union(rhs),
    {
        self.union(rhs)
    }
}

impl vstd::std_specs::ops::BitXorSpecImpl for BitBoard {
    open spec fn obeys_bitxor_spec() -> bool {
        true
    }

    open spec fn bitxor_req(self, rhs: BitBoard) -> bool {
        true
    }

    open spec fn bitxor_spec(self, rhs: BitBoard) -> BitBoard {
        self.symmetric_difference(rhs)
    }
}

impl std::ops::BitXor for BitBoard {
    type Output = BitBoard;

    /// `a ^ b` is `a.symmetric_difference(b)`.
    #[inline]
    fn bitxor(self, rhs: BitBoard) -> (board: BitBoard)
        ensures
            board == self.symmetric_difference(rhs),
    {
        self.symmetric_difference(rhs)
    }
}

impl std::ops::BitAndAssign for BitBoard {
    /// `a &= b` leaves `a.intersect(b)` in `a`.
    #[inline]
    fn bitand_assign(&mut self, rhs: BitBoard)
        ensures
            *final(self) == old(self).intersect(rhs),
    {
        *self = self.intersect(rhs);
    }
}

impl std::ops::BitOrAssign for BitBoard {
    /// `a |= b` leaves `a.union(b)` in `a`.
    #[inline]
    fn bitor_assign(&mut self, rhs: BitBoard)
        ensures
            *final(self) == old(self).union(rhs),
    {
        *self = self.union(rhs);
    }
}

impl std::ops::BitXorAssign for BitBoard {
    /// `a ^= b` leaves `a.symmetric_difference(b)` in `a`.
    #[inline]
    fn bitxor_assign(&mut self, rhs: BitBoard)
        ensures
            *final(self) == old(self).symmetric_difference(rhs),
    {
        *self = self.symmetric_difference(rhs);
    }
}

impl vstd::std_specs::ops::ShlSpecImpl<BitBoard> for BitBoard {
    open spec fn obeys_shl_spec() -> bool {
        true
    }

    open spec fn shl_req(self, rhs: BitBoard) -> bool {
        true
    }

    open spec fn shl_spec(self, rhs: BitBoard) -> BitBoard {
        self.shift_left((rhs.bits() % 0x1_0000_0000) as u32)
    }
}

impl std::ops::Shl<BitBoard> for BitBoard {
    type Output = BitBoard;

    /// `a << b` shifts `a` by the word of `b` as a count, of which
    /// [`BitBoard::shift_left`] keeps the low six bits.
    #[inline(always)]
    fn shl(self, rhs: BitBoard) -> (board: BitBoard)
        ensures
            board == self.shift_left((rhs.bits() % 0x1_0000_0000) as u32),
            board.bits() == self.bits() << (rhs.bits() % 64),
    {
        proof {
            lemma_count_of_word(rhs.0);
        }
        self.shift_left(#[verifier::truncate] (rhs.0 as u32))
    }
}

impl vstd::std_specs::ops::ShlSpecImpl<i64> for BitBoard {
    open spec fn obeys_shl_spec() -> bool {
        true
    }

    open spec fn shl_req(self, rhs: i64) -> bool {
        true
    }

    open spec fn shl_spec(self, rhs: i64) -> BitBoard {
        self.shift_left((rhs % 0x1_0000_0000) as u32)
    }
}

impl std::ops::Shl<i64> for BitBoard {
    type Output = BitBoard;

    /// `a << n` shifts `a` by `n` modulo 64 places, as
    /// [`BitBoard::shift_left`] does: by 63 places for `n == -1`.
    #[inline(always)]
    fn shl(self, rhs: i64) -> (board: BitBoard)
        ensures
            board == self.shift_left((rhs % 0x1_0000_0000) as u32),
            board.bits() == self.bits() << (rhs % 64),
    {
        proof {
            lemma_count_of_integer(rhs);
        }
        self.shift_left(#[verifier::truncate] (rhs as u32))
    }
}

impl vstd::std_specs::ops::MulSpecImpl for BitBoard {
    open spec fn obeys_mul_spec() -> bool {
        true
    }

    open spec fn mul_req(self, rhs: BitBoard) -> bool {
        true
    }

    open spec fn mul_spec(self, rhs: BitBoard) -> BitBoard {
        self.multiply(rhs)
    }
}

impl std::ops::Mul for BitBoard {
    type Output = BitBoard;

    /// `a * b` is `a.multiply(b)`.
    #[inline]
    fn mul(self, rhs: BitBoard) -> (board: BitBoard)
        ensures
            board == self.multiply(rhs),
    {
        self.multiply(rhs)
    }
}

impl vstd::std_specs::ops::NotSpecImpl for BitBoard {
    open spec fn obeys_not_spec() -> bool {
        true
    }

    open spec fn not_req(self) -> bool {
        true
    }

    open spec fn not_spec(self) -> BitBoard {
        self.complement()
    }
}

impl std::ops::Not for BitBoard {
    type Output = BitBoard;

    /// `!a` is `a.complement()`.
    #[inline]
    fn not(self) -> (board: BitBoard)
        ensures
            board == self.complement(),
    {
        self.complement()
    }
}

/// The digit that names `rank`, for the ranks 1 to 8.
pub open spec fn rank_glyph(rank: int) -> char {
    seq!['1', '2', '3', '4', '5', '6', '7', '8'][rank - 1]
}

/// The letter that names `file`, for the files 1 to 8.
pub open spec fn file_glyph(file: int) -> char {
    seq!['a', 'b', 'c', 'd', 'e', 'f', 'g', 'h'][file - 1]
}

fn rank_label(rank: u8) -> (label: &'static str)
    requires
        1 <= rank <= 8,
    ensures
        label@ == seq![rank_glyph(rank as int)],
{
    proof {
        reveal_strlit("1");
        reveal_strlit("2");
        reveal_strlit("3");
        reveal_strlit("4");
        reveal_strlit("5");
        reveal_strlit("6");
        reveal_strlit("7");
        reveal_strlit("8");
    }
    let label = match rank {
        1 => "1",
        2 => "2",
        3 => "3",
        4 => "4",
        5 => "5",
        6 => "6",
        7 => "7",
        _ => "8",
    };
    assert(label@ =~= seq![rank_glyph(rank as int)]);
    label
}

impl BitBoard {
    /// The character in `column` of `line` of the rendering. Lines are
    /// counted from the top and columns from the left, both from 0.
    ///
    /// Line 0 shows rank 8 and line 7 shows rank 1. Such a line is 18
    /// characters long: the rank's digit, then a space and a cell for each of
    /// the files a to h, then a newline. The cell of a square is `x` where
    /// the board holds the square's index, and `.` where it does not.
    ///
    /// Line 8 names the files and is 17 characters long: two spaces, then
    /// the letters a to h with a space between them. No newline ends it.
    pub open spec fn glyph(self, line: int, column: int) -> char {
        if line < 8 {
            let rank = 8 - line;
            if column == 0 {
                rank_glyph(rank)
            } else if column == 17 {
                '\n'
            } else if column % 2 == 1 {
                ' '
            } else if self@.contains((rank - 1) * 8 + (column - 2) / 2) {
                'x'
            } else {
                '.'
            }
        } else if column >= 2 && column % 2 == 0 {
            file_glyph(column / 2)
        } else {
            ' '
        }
    }

    /// The rendering of the board, character by character: eight lines of
    /// 18 characters for the ranks 8 down to 1, then the 17 characters that
    /// name the files, 161 in all.
    pub open spec fn rendering(self) -> Seq<char> {
        Seq::new(161, |at: int| self.glyph(at / 18, at % 18))
    }

    /// Draws the board as text, rank 8 at the top and file a at the left. A
    /// cell shows `x` where the board holds the square's index and `.` where
    /// it does not.
    ///
    /// ```plaintext
    /// 8 . . . . . . . .
    /// 7 . . . . . . . .
    /// 6 . . . . . . . .
    /// 5 . . . . . . . .
    /// 4 . . . . x . . .
    /// 3 . . . . . . . .
    /// 2 . . . . . . . .
    /// 1 . . . . . . . .
    ///   a b c d e f g h
    /// ```
    pub fn render(&self) -> (text: String)
        ensures
            text@ == self.rendering(),
    {
        let ghost grid = self.rendering();
        let mut text = String::new();
        let mut rank: u8 = 8;
        assert(text@ =~= grid.take(0));
        while rank > 0
            invariant
                rank <= 8,
                grid == self.rendering(),
                text@ == grid.take((8 - rank) * 18),
            decreases rank,
        {
            let ghost start = (8 - rank) * 18;
            text.append(rank_label(rank));
            assert(text@ =~= grid.take(start + 1));
            let mut file: u8 = 0;
            while file < 8
                invariant
                    1 <= rank <= 8,
                    file <= 8,
                    start == (8 - rank) * 18,
                    grid == self.rendering(),
                    text@ == grid.take(start + 1 + 2 * file),
                decreases 8 - file,
            {
                proof {
                    reveal_strlit(" ");
                    reveal_strlit("x");
                    reveal_strlit(".");
                }
                let ghost column = 1 + 2 * file;
                text.append(" ");
                assert(text@ =~= grid.take(start + column + 1));
                let held = self.contains((rank - 1) * 8 + file);
                text.append(if held { "x" } else { "." });
                assert(text@ =~= grid.take(start + column + 2));
                file += 1;
            }
            proof {
                reveal_strlit("\n");
            }
            text.append("\n");
            assert(text@ =~= grid.take(start + 18));
            rank -= 1;
        }
        proof {
            reveal_strlit("  a b c d e f g h");
        }
        text.append("  a b c d e f g h");
        assert(text@ =~= grid);
        text
    }
}

} // verus!
