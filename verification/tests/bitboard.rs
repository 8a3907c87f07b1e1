use chess::repr::board::square::Square;
use chess::repr::board::BitBoard;

const EMPTY_GRID: &str = "8 . . . . . . . .\n\
                          7 . . . . . . . .\n\
                          6 . . . . . . . .\n\
                          5 . . . . . . . .\n\
                          4 . . . . . . . .\n\
                          3 . . . . . . . .\n\
                          2 . . . . . . . .\n\
                          1 . . . . . . . .\n  \
                          a b c d e f g h";

/// A handful of words that between them have ones low, high, alone and packed.
fn samples() -> Vec<BitBoard> {
    vec![
        BitBoard::from(0),
        BitBoard::from(1),
        BitBoard::from(1 << 63),
        BitBoard::from(u64::MAX),
        BitBoard::from(0x0000_0000_1000_0000),
        BitBoard::from(0x00ff_0000_0000_ff00),
        BitBoard::from(0xaaaa_aaaa_5555_5555),
        BitBoard::from(0x0123_4567_89ab_cdef),
    ]
}

#[test]
fn popcnt_empty_bitboard() {
    let empty_board = BitBoard::default();
    assert_eq!(empty_board.population_count(), 0)
}

#[test]
fn popcnt_full_bitboard() {
    let full_bitboard = !BitBoard::default();
    assert_eq!(full_bitboard.population_count(), 64)
}

#[test]
fn default_is_empty() {
    assert_eq!(BitBoard::default(), BitBoard::empty());
    assert_eq!(BitBoard::empty(), BitBoard::from(0));
    for idx in 0..64 {
        assert!(!BitBoard::empty().contains(idx));
    }
}

#[test]
fn population_count_counts_each_one() {
    assert_eq!(BitBoard::from(1).population_count(), 1);
    assert_eq!(BitBoard::from(1 << 63).population_count(), 1);
    assert_eq!(BitBoard::from(0x00ff_0000_0000_ff00).population_count(), 16);
    assert_eq!(BitBoard::from(0xaaaa_aaaa_5555_5555).population_count(), 32);
    assert_eq!(BitBoard::from(0x0123_4567_89ab_cdef).population_count(), 32);
    assert_eq!(BitBoard::from(u64::MAX - 1).population_count(), 63);
}

#[test]
fn population_count_of_board_and_complement_is_64() {
    for a in samples() {
        assert_eq!(a.population_count() + a.complement().population_count(), 64);
    }
}

#[test]
fn queens_gambit_has_three_squares() {
    let mut queens_gambit = BitBoard::default();
    for text in ["d4", "d5", "c4"] {
        queens_gambit.set(Square::parse(text).unwrap().into());
    }
    assert_eq!(queens_gambit.population_count(), 3);
    assert_eq!(
        queens_gambit,
        BitBoard::from((1 << 27) | (1 << 35) | (1 << 26))
    );
}

#[test]
fn set_and_unset_change_one_bit() {
    let mut board = BitBoard::from(0b1010);
    board.set(0);
    assert_eq!(board, BitBoard::from(0b1011));
    board.set(3);
    assert_eq!(board, BitBoard::from(0b1011));
    board.set(63);
    assert_eq!(board, BitBoard::from(0b1011 | (1 << 63)));
    board.unset(1);
    assert_eq!(board, BitBoard::from(0b1001 | (1 << 63)));
    board.unset(2);
    assert_eq!(board, BitBoard::from(0b1001 | (1 << 63)));
    board.unset(63);
    assert_eq!(board, BitBoard::from(0b1001));
}

#[test]
fn with_and_remove_leave_the_receiver_alone() {
    let board = BitBoard::from(0b0110);
    assert_eq!(board.with(0), BitBoard::from(0b0111));
    assert_eq!(board.with(1), BitBoard::from(0b0110));
    assert_eq!(board.remove(1), BitBoard::from(0b0100));
    assert_eq!(board.remove(0), BitBoard::from(0b0110));
    assert_eq!(board, BitBoard::from(0b0110));
}

#[test]
fn contains_tests_one_bit() {
    let board = BitBoard::from(0x8000_0000_0000_0001);
    assert!(board.contains(0));
    assert!(board.contains(63));
    for idx in 1..63 {
        assert!(!board.contains(idx));
    }
}

#[test]
fn remove_after_with_is_remove() {
    for m in samples() {
        for idx in 0..64 {
            assert_eq!(m.with(idx).remove(idx), m.remove(idx));
            assert!(m.with(idx).contains(idx));
            assert!(!m.remove(idx).contains(idx));
        }
    }
}

#[test]
fn set_algebra_on_words() {
    let a = BitBoard::from(0b1100);
    let b = BitBoard::from(0b1010);
    assert_eq!(a.union(b), BitBoard::from(0b1110));
    assert_eq!(a.intersect(b), BitBoard::from(0b1000));
    assert_eq!(a.symmetric_difference(b), BitBoard::from(0b0110));
    assert_eq!(a.complement(), BitBoard::from(!0b1100u64));
    assert_eq!(a | b, BitBoard::from(0b1110));
    assert_eq!(a & b, BitBoard::from(0b1000));
    assert_eq!(a ^ b, BitBoard::from(0b0110));
    assert_eq!(!a, BitBoard::from(0xffff_ffff_ffff_fff3));
}

#[test]
fn assigning_operators_change_the_left_side() {
    let mut board = BitBoard::from(0b1100);
    board |= BitBoard::from(0b0011);
    assert_eq!(board, BitBoard::from(0b1111));
    board &= BitBoard::from(0b0110);
    assert_eq!(board, BitBoard::from(0b0110));
    board ^= BitBoard::from(0b0101);
    assert_eq!(board, BitBoard::from(0b0011));
}

#[test]
fn set_algebra_laws_hold_on_samples() {
    let empty = BitBoard::empty();
    let full = BitBoard::empty().complement();
    assert_eq!(full, BitBoard::from(u64::MAX));
    for a in samples() {
        assert_eq!(a.intersect(a.complement()), empty);
        assert_eq!(a.union(a.complement()), full);
        assert_eq!(a.symmetric_difference(a), empty);
        assert_eq!(a.complement().complement(), a);
        for b in samples() {
            assert_eq!(a.union(b), b.union(a));
            assert_eq!(a.intersect(b), b.intersect(a));
            for c in samples() {
                assert_eq!(a.union(b).union(c), a.union(b.union(c)));
                assert_eq!(a.intersect(b).intersect(c), a.intersect(b.intersect(c)));
            }
        }
    }
}

#[test]
fn shift_left_drops_what_passes_the_top() {
    let board = BitBoard::from(0x8000_0000_0000_0081);
    assert_eq!(board.shift_left(0), board);
    assert_eq!(board.shift_left(1), BitBoard::from(0x0000_0000_0000_0102));
    assert_eq!(board.shift_left(8), BitBoard::from(0x0000_0000_0000_8100));
    assert_eq!(board.shift_left(63), BitBoard::from(0x8000_0000_0000_0000));
    assert_eq!(BitBoard::from(u64::MAX).shift_left(60), BitBoard::from(0xf000_0000_0000_0000));
}

#[test]
fn shift_left_takes_the_count_modulo_64() {
    let board = BitBoard::from(0x0000_0000_0000_00ff);
    assert_eq!(board.shift_left(64), board);
    assert_eq!(board.shift_left(65), board.shift_left(1));
    assert_eq!(board.shift_left(128 + 8), BitBoard::from(0xff00));
    assert_eq!(board.shift_left(u32::MAX), board.shift_left(63));
}

#[test]
fn shift_operator_with_an_integer_count() {
    let board = BitBoard::from(0b1011);
    assert_eq!(board << 0i64, board);
    assert_eq!(board << 4i64, BitBoard::from(0b1011_0000));
    assert_eq!(board << 64i64, board);
    assert_eq!(board << 66i64, BitBoard::from(0b10_1100));
    assert_eq!(board << -1i64, BitBoard::from(1 << 63));
    assert_eq!(board << -64i64, board);
    assert_eq!(board << i64::MIN, board);
    assert_eq!(board << ((1i64 << 32) + 3), BitBoard::from(0b101_1000));
}

#[test]
fn shift_operator_with_a_board_as_count() {
    let board = BitBoard::from(0b1011);
    assert_eq!(board << BitBoard::from(0), board);
    assert_eq!(board << BitBoard::from(4), BitBoard::from(0b1011_0000));
    assert_eq!(board << BitBoard::from(64 + 2), BitBoard::from(0b10_1100));
    assert_eq!(board << BitBoard::from((1 << 40) + 1), BitBoard::from(0b1_0110));
    assert_eq!(board << BitBoard::from(u64::MAX), BitBoard::from(1 << 63));
}

#[test]
fn multiply_keeps_the_low_64_bits() {
    assert_eq!(BitBoard::from(3).multiply(BitBoard::from(5)), BitBoard::from(15));
    assert_eq!(BitBoard::from(0).multiply(BitBoard::from(u64::MAX)), BitBoard::from(0));
    assert_eq!(
        BitBoard::from(1 << 63).multiply(BitBoard::from(2)),
        BitBoard::from(0)
    );
    assert_eq!(
        BitBoard::from(u64::MAX).multiply(BitBoard::from(u64::MAX)),
        BitBoard::from(1)
    );
    assert_eq!(
        BitBoard::from(0x0123_4567_89ab_cdef).multiply(BitBoard::from(0x1000_0001)),
        BitBoard::from(0x0123_4567_89ab_cdefu64.wrapping_mul(0x1000_0001))
    );
    assert_eq!(
        BitBoard::from(0xdead_beef) * BitBoard::from(0x1_0000_0000),
        BitBoard::from(0xdead_beef_0000_0000)
    );
    assert_eq!(
        BitBoard::from(0x1_0000_0001) * BitBoard::from(0x1_0000_0001),
        BitBoard::from(0x0000_0002_0000_0001)
    );
}

#[test]
fn render_of_the_empty_board() {
    assert_eq!(BitBoard::empty().render(), EMPTY_GRID);
    assert_eq!(BitBoard::empty().render().len(), 161);
}

#[test]
fn render_of_e4() {
    let board = BitBoard::default().with(28);
    let expected = "8 . . . . . . . .\n\
                    7 . . . . . . . .\n\
                    6 . . . . . . . .\n\
                    5 . . . . . . . .\n\
                    4 . . . . x . . .\n\
                    3 . . . . . . . .\n\
                    2 . . . . . . . .\n\
                    1 . . . . . . . .\n  \
                    a b c d e f g h";
    assert_eq!(board.render(), expected);
    let text = board.render();
    let lines: Vec<&str> = text.split('\n').collect();
    assert_eq!(lines.len(), 9);
    assert_eq!(lines[4], "4 . . . . x . . .");
    assert_eq!(lines[4].chars().nth(2 + 2 * 4), Some('x'));
    assert_eq!(lines[8].chars().nth(2 + 2 * 4), Some('e'));
    assert_eq!(text.chars().filter(|c| *c == 'x').count(), 1);
    assert_eq!(text.chars().filter(|c| *c == '.').count(), 63);
}

#[test]
fn render_of_the_corners() {
    let board = BitBoard::empty().with(0).with(7).with(56).with(63);
    let expected = "8 x . . . . . . x\n\
                    7 . . . . . . . .\n\
                    6 . . . . . . . .\n\
                    5 . . . . . . . .\n\
                    4 . . . . . . . .\n\
                    3 . . . . . . . .\n\
                    2 . . . . . . . .\n\
                    1 x . . . . . . x\n  \
                    a b c d e f g h";
    assert_eq!(board.render(), expected);
}

#[test]
fn render_of_the_full_board() {
    let expected = "8 x x x x x x x x\n\
                    7 x x x x x x x x\n\
                    6 x x x x x x x x\n\
                    5 x x x x x x x x\n\
                    4 x x x x x x x x\n\
                    3 x x x x x x x x\n\
                    2 x x x x x x x x\n\
                    1 x x x x x x x x\n  \
                    a b c d e f g h";
    assert_eq!((!BitBoard::default()).render(), expected);
}

#[test]
fn render_puts_each_index_in_its_cell() {
    for idx in 0..64u8 {
        let text = BitBoard::empty().with(idx).render();
        let line = 7 - (idx / 8) as usize;
        let column = 2 + 2 * (idx % 8) as usize;
        let at = line * 18 + column;
        for (i, c) in text.chars().enumerate() {
            if i == at {
                assert_eq!(c, 'x');
            } else {
                assert_eq!(Some(c), EMPTY_GRID.chars().nth(i));
            }
        }
    }
}

#[test]
fn render_ends_lines_without_a_space() {
    let text = BitBoard::from(0xa5a5_a5a5_a5a5_a5a5).render();
    for line in text.split('\n') {
        assert_eq!(line.len(), 17);
        assert!(!line.ends_with(' '));
    }
    assert!(!text.ends_with('\n'));
}
