//! Representation for board locations.
//!
//! A [`Square`] is a [`File`] and a [`Rank`]. Its index is the number of the
//! bit that stands for it in a `BitBoard`: `(rank - 1) * 8 + (file - 1)`, so
//! that a1 is 0, h1 is 7, a8 is 56 and h8 is 63.
use std::str::FromStr;
use vstd::prelude::*;
use vstd::slice::axiom_spec_len;
use vstd::string::is_ascii_spec_bytes;
use vstd::string::StringSliceAdditionalSpecFns;

verus! {

/// Why a numeral or a character names no rank or no file.
#[derive(Copy, Clone, PartialEq, Eq, Debug, Hash, Structural)]
pub enum RangeError {
    /// The numeral is not one of 1 to 8.
    Numeral(u8),
    /// The character is not one of the digits `1` to `8`, where a rank was
    /// asked for, or not one of the letters `a` to `h` and `A` to `H`, where
    /// a file was.
    Character(char),
}

/// Why a text names no square.
#[derive(PartialEq, Eq, Debug)]
pub enum ParseError {
    /// The text is not two bytes long. `len` is its length in bytes.
    Length { len: usize, text: String },
    /// The text is two bytes long and holds a byte outside ASCII.
    NonAscii { text: String },
    /// The second character names no rank.
    Rank(RangeError),
    /// The second character names a rank and the first names no file.
    File(RangeError),
}

/// A row of the chessboard.
///
/// In algebraic notation, ranks are numbered 1–8 starting from White's side of the board.
/// For example: White's king and other pieces start on their first (or "back" or "home") rank,
/// whereas Black calls the same rank the "eighth" (or last) rank.
#[derive(Copy, Clone, PartialEq, Eq, Debug, Hash, Structural)]
pub enum Rank {
    #[allow(missing_docs)]
    One,
    #[allow(missing_docs)]
    Two,
    #[allow(missing_docs)]
    Three,
    #[allow(missing_docs)]
    Four,
    #[allow(missing_docs)]
    Five,
    #[allow(missing_docs)]
    Six,
    #[allow(missing_docs)]
    Seven,
    #[allow(missing_docs)]
    Eight,
}

impl Rank {
    /// What [`Rank::numeral`] returns.
    pub open spec fn spec_numeral(self) -> u8 {
        match self {
            Rank::One => 1,
            Rank::Two => 2,
            Rank::Three => 3,
            Rank::Four => 4,
            Rank::Five => 5,
            Rank::Six => 6,
            Rank::Seven => 7,
            Rank::Eight => 8,
        }
    }

    /// The number of the rank, from 1 to 8.
    #[verifier::when_used_as_spec(spec_numeral)]
    pub fn numeral(self) -> (numeral: u8)
        ensures
            numeral == self.spec_numeral(),
            1 <= numeral <= 8,
    {
        match self {
            Rank::One => 1,
            Rank::Two => 2,
            Rank::Three => 3,
            Rank::Four => 4,
            Rank::Five => 5,
            Rank::Six => 6,
            Rank::Seven => 7,
            Rank::Eight => 8,
        }
    }

    /// What [`Rank::from_numeral`] returns.
    pub open spec fn spec_from_numeral(numeral: u8) -> Result<Rank, RangeError> {
        if numeral == 1 {
            Ok(Rank::One)
        } else if numeral == 2 {
            Ok(Rank::Two)
        } else if numeral == 3 {
            Ok(Rank::Three)
        } else if numeral == 4 {
            Ok(Rank::Four)
        } else if numeral == 5 {
            Ok(Rank::Five)
        } else if numeral == 6 {
            Ok(Rank::Six)
        } else if numeral == 7 {
            Ok(Rank::Seven)
        } else if numeral == 8 {
            Ok(Rank::Eight)
        } else {
            Err(RangeError::Numeral(numeral))
        }
    }

    /// The rank with the given number. A number outside 1 to 8 names no
    /// rank, and comes back in the error.
    #[verifier::when_used_as_spec(spec_from_numeral)]
    pub fn from_numeral(numeral: u8) -> (found: Result<Rank, RangeError>)
        ensures
            found == Rank::spec_from_numeral(numeral),
            found is Ok <==> 1 <= numeral <= 8,
            found matches Ok(rank) ==> rank.numeral() == numeral,
            found matches Err(error) ==> error == RangeError::Numeral(numeral),
    {
        match numeral {
            1 => Ok(Rank::One),
            2 => Ok(Rank::Two),
            3 => Ok(Rank::Three),
            4 => Ok(Rank::Four),
            5 => Ok(Rank::Five),
            6 => Ok(Rank::Six),
            7 => Ok(Rank::Seven),
            8 => Ok(Rank::Eight),
            _ => Err(RangeError::Numeral(numeral)),
        }
    }

    /// What [`Rank::from_char`] returns.
    pub open spec fn spec_from_char(digit: char) -> Result<Rank, RangeError> {
        if '1' <= digit <= '8' {
            Rank::spec_from_numeral((digit as int - '0' as int) as u8)
        } else {
            Err(RangeError::Character(digit))
        }
    }

    /// The rank that a digit names: `'1'` the first, `'8'` the eighth. Any
    /// other character names no rank, and comes back in the error.
    #[verifier::when_used_as_spec(spec_from_char)]
    pub fn from_char(digit: char) -> (found: Result<Rank, RangeError>)
        ensures
            found == Rank::spec_from_char(digit),
            found is Ok <==> '1' <= digit <= '8',
            found matches Ok(rank) ==> rank.numeral() == digit as int - '0' as int,
            found matches Err(error) ==> error == RangeError::Character(digit),
    {
        if '1' <= digit && digit <= '8' {
            Rank::from_numeral((digit as u8) - 48)
        } else {
            Err(RangeError::Character(digit))
        }
    }
}

/// A column of the chessboard.
///
/// Each file is named using its position in algebraic notation, a–h.
#[derive(Copy, Clone, PartialEq, Eq, Debug, Hash, Structural)]
pub enum File {
    #[allow(missing_docs)]
    A,
    #[allow(missing_docs)]
    B,
    #[allow(missing_docs)]
    C,
    #[allow(missing_docs)]
    D,
    #[allow(missing_docs)]
    E,
    #[allow(missing_docs)]
    F,
    #[allow(missing_docs)]
    G,
    #[allow(missing_docs)]
    H,
}

impl File {
    /// What [`File::numeral`] returns.
    pub open spec fn spec_numeral(self) -> u8 {
        match self {
            File::A => 1,
            File::B => 2,
            File::C => 3,
            File::D => 4,
            File::E => 5,
            File::F => 6,
            File::G => 7,
            File::H => 8,
        }
    }

    /// The number of the file, from 1 for a to 8 for h.
    #[verifier::when_used_as_spec(spec_numeral)]
    pub fn numeral(self) -> (numeral: u8)
        ensures
            numeral == self.spec_numeral(),
            1 <= numeral <= 8,
    {
        match self {
            File::A => 1,
            File::B => 2,
            File::C => 3,
            File::D => 4,
            File::E => 5,
            File::F => 6,
            File::G => 7,
            File::H => 8,
        }
    }

    /// What [`File::from_numeral`] returns.
    pub open spec fn spec_from_numeral(numeral: u8) -> Result<File, RangeError> {
        if numeral == 1 {
            Ok(File::A)
        } else if numeral == 2 {
            Ok(File::B)
        } else if numeral == 3 {
            Ok(File::C)
        } else if numeral == 4 {
            Ok(File::D)
        } else if numeral == 5 {
            Ok(File::E)
        } else if numeral == 6 {
            Ok(File::F)
        } else if numeral == 7 {
            Ok(File::G)
        } else if numeral == 8 {
            Ok(File::H)
        } else {
            Err(RangeError::Numeral(numeral))
        }
    }

    /// The file with the given number. A number outside 1 to 8 names no
    /// file, and comes back in the error.
    #[verifier::when_used_as_spec(spec_from_numeral)]
    pub fn from_numeral(numeral: u8) -> (found: Result<File, RangeError>)
        ensures
            found == File::spec_from_numeral(numeral),
            found is Ok <==> 1 <= numeral <= 8,
            found matches Ok(file) ==> file.numeral() == numeral,
            found matches Err(error) ==> error == RangeError::Numeral(numeral),
    {
        match numeral {
            1 => Ok(File::A),
            2 => Ok(File::B),
            3 => Ok(File::C),
            4 => Ok(File::D),
            5 => Ok(File::E),
            6 => Ok(File::F),
            7 => Ok(File::G),
            8 => Ok(File::H),
            _ => Err(RangeError::Numeral(numeral)),
        }
    }

    /// What [`File::from_char`] returns.
    pub open spec fn spec_from_char(letter: char) -> Result<File, RangeError> {
        if 'a' <= letter <= 'h' {
            File::spec_from_numeral((letter as int - 'a' as int + 1) as u8)
        } else if 'A' <= letter <= 'H' {
            File::spec_from_numeral((letter as int - 'A' as int + 1) as u8)
        } else {
            Err(RangeError::Character(letter))
        }
    }

    /// The file that a letter names, small or capital: `'a'` and `'A'` the
    /// first, `'h'` and `'H'` the eighth. Any other character names no file,
    /// and comes back in the error.
    #[verifier::when_used_as_spec(spec_from_char)]
    pub fn from_char(letter: char) -> (found: Result<File, RangeError>)
        ensures
            found == File::spec_from_char(letter),
            found is Ok <==> 'a' <= letter <= 'h' || 'A' <= letter <= 'H',
            found matches Ok(file) ==> file.numeral() == (if letter >= 'a' {
                letter as int - 'a' as int + 1
            } else {
                letter as int - 'A' as int + 1
            }),
            found matches Err(error) ==> error == RangeError::Character(letter),
    {
        if 'a' <= letter && letter <= 'h' {
            File::from_numeral((letter as u8) - 96)
        } else if 'A' <= letter && letter <= 'H' {
            File::from_numeral((letter as u8) - 64)
        } else {
            Err(RangeError::Character(letter))
        }
    }
}

/// A `Square` represents a pair of [`Rank`] and [`File`] that describes a location
/// on the board.
#[derive(Copy, Clone, PartialEq, Eq, Debug, Hash, Structural)]
pub struct Square {
    /// The `File` this `Square` resides on.
    pub file: File,
    /// The `Rank` this `Square` resides on.
    pub rank: Rank,
}

impl Square {
    /// What [`Square::to_index`] returns.
    pub open spec fn spec_to_index(self) -> u8 {
        ((self.rank.numeral() - 1) * 8 + (self.file.numeral() - 1)) as u8
    }

    /// The index of the square's bit in a `BitBoard`:
    /// `(rank - 1) * 8 + (file - 1)`.
    #[verifier::when_used_as_spec(spec_to_index)]
    pub fn to_index(self) -> (index: u8)
        ensures
            index == self.spec_to_index(),
            index == (self.rank.numeral() - 1) * 8 + (self.file.numeral() - 1),
            index < 64,
    {
        (self.rank.numeral() - 1) * 8 + self.file.numeral() - 1
    }

    /// What [`Square::from_index`] returns.
    pub open spec fn spec_from_index(index: u8) -> Option<Square> {
        if index < 64 {
            match (File::spec_from_numeral((index % 8 + 1) as u8), Rank::spec_from_numeral(
                (index / 8 + 1) as u8,
            )) {
                (Ok(file), Ok(rank)) => Some(Square { file, rank }),
                _ => None,
            }
        } else {
            None
        }
    }

    /// The square with the given index, if there is one: an index of 64 or
    /// more names no square.
    #[verifier::when_used_as_spec(spec_from_index)]
    pub fn from_index(index: u8) -> (found: Option<Square>)
        ensures
            found == Square::spec_from_index(index),
            found is Some <==> index < 64,
            found matches Some(square) ==> square.to_index() == index,
    {
        if index < 64 {
            match (File::from_numeral(index % 8 + 1), Rank::from_numeral(index / 8 + 1)) {
                (Ok(file), Ok(rank)) => Some(Square { file, rank }),
                _ => None,
            }
        } else {
            None
        }
    }

    /// The square that two characters name, the first as a file and the
    /// second as a rank. Where the second names no rank the error is the
    /// rank's, whatever the first is; else, where the first names no file,
    /// the file's.
    pub open spec fn of_chars(file: char, rank: char) -> Result<Square, ParseError> {
        match Rank::from_char(rank) {
            Err(error) => Err(ParseError::Rank(error)),
            Ok(rank) => match File::from_char(file) {
                Err(error) => Err(ParseError::File(error)),
                Ok(file) => Ok(Square { file, rank }),
            },
        }
    }

    /// Whether `found` is what [`Square::parse`] makes of the text with the
    /// characters `text`, which is `bytes` bytes long in UTF-8.
    ///
    /// A text that is not two bytes long is refused for its length, and one
    /// of two bytes that is not ASCII is refused for that; both errors carry
    /// the text as it was given. What is left is two ASCII characters, and
    /// `found` is what they name.
    pub open spec fn parsed(text: Seq<char>, bytes: nat, found: Result<Square, ParseError>) -> bool {
        if bytes != 2 {
            found matches Err(ParseError::Length { len, text: given }) && len == bytes && given@
                == text
        } else if !vstd::utf8::is_ascii_chars(text) {
            found matches Err(ParseError::NonAscii { text: given }) && given@ == text
        } else {
            found == Square::of_chars(text[0], text[1])
        }
    }

    /// Reads a square in algebraic notation: the letter of its file, then the
    /// digit of its rank, as in `"e4"`. Nothing is trimmed and nothing may
    /// follow.
    ///
    /// The first clause says what comes back for every text. The others say
    /// it again for those who would rather not count bytes: in an ASCII text
    /// each character is one byte.
    pub fn parse(s: &str) -> (found: Result<Square, ParseError>)
        ensures
            Square::parsed(s@, s.spec_bytes().len(), found),
            found is Ok <==> s@.len() == 2 && Square::of_chars(s@[0], s@[1]) is Ok,
            s.is_ascii() && s@.len() == 2 ==> found == Square::of_chars(s@[0], s@[1]),
            s.is_ascii() && s@.len() != 2 ==> (found matches Err(
                ParseError::Length { len, text },
            ) && len == s@.len() && text@ == s@),
    {
        broadcast use {is_ascii_spec_bytes, axiom_spec_len};

        proof {
            Square::lemma_names_are_ascii(s@);
        }
        let len = s.as_bytes().len();
        if len != 2 {
            return Err(ParseError::Length { len, text: s.to_owned() });
        }
        if !s.is_ascii() {
            return Err(ParseError::NonAscii { text: s.to_owned() });
        }
        let file = s.get_char(0);
        let rank = s.get_char(1);
        match Rank::from_char(rank) {
            Err(error) => Err(ParseError::Rank(error)),
            Ok(rank) => match File::from_char(file) {
                Err(error) => Err(ParseError::File(error)),
                Ok(file) => Ok(Square { file, rank }),
            },
        }
    }

    /// Two characters that name a square are ASCII, and so two bytes long.
    proof fn lemma_names_are_ascii(text: Seq<char>)
        ensures
            text.len() == 2 && Square::of_chars(text[0], text[1]) is Ok ==> {
                &&& vstd::utf8::is_ascii_chars(text)
                &&& vstd::utf8::encode_utf8(text).len() == 2
            },
    {
        if text.len() == 2 && Square::of_chars(text[0], text[1]) is Ok {
            assert(vstd::utf8::is_ascii_chars(text));
            vstd::utf8::is_ascii_chars_encode_utf8(text);
        }
    }
}

impl vstd::std_specs::convert::TryFromSpecImpl<u8> for Rank {
    open spec fn obeys_try_from_spec() -> bool {
        true
    }

    open spec fn try_from_spec(value: u8) -> Result<Rank, RangeError> {
        Rank::from_numeral(value)
    }
}

impl TryFrom<u8> for Rank {
    type Error = RangeError;

    /// The same as [`Rank::from_numeral`].
    fn try_from(value: u8) -> (found: Result<Rank, RangeError>)
        ensures
            found == Rank::from_numeral(value),
    {
        Rank::from_numeral(value)
    }
}

impl vstd::std_specs::convert::TryFromSpecImpl<char> for Rank {
    open spec fn obeys_try_from_spec() -> bool {
        true
    }

    open spec fn try_from_spec(value: char) -> Result<Rank, RangeError> {
        Rank::from_char(value)
    }
}

impl TryFrom<char> for Rank {
    type Error = RangeError;

    /// The same as [`Rank::from_char`].
    fn try_from(value: char) -> (found: Result<Rank, RangeError>)
        ensures
            found == Rank::from_char(value),
    {
        Rank::from_char(value)
    }
}

impl vstd::std_specs::convert::TryFromSpecImpl<u8> for File {
    open spec fn obeys_try_from_spec() -> bool {
        true
    }

    open spec fn try_from_spec(value: u8) -> Result<File, RangeError> {
        File::from_numeral(value)
    }
}

impl TryFrom<u8> for File {
    type Error = RangeError;

    /// The same as [`File::from_numeral`].
    fn try_from(value: u8) -> (found: Result<File, RangeError>)
        ensures
            found == File::from_numeral(value),
    {
        File::from_numeral(value)
    }
}

impl vstd::std_specs::convert::TryFromSpecImpl<char> for File {
    open spec fn obeys_try_from_spec() -> bool {
        true
    }

    open spec fn try_from_spec(value: char) -> Result<File, RangeError> {
        File::from_char(value)
    }
}

impl TryFrom<char> for File {
    type Error = RangeError;

    /// The same as [`File::from_char`].
    fn try_from(value: char) -> (found: Result<File, RangeError>)
        ensures
            found == File::from_char(value),
    {
        File::from_char(value)
    }
}

impl vstd::std_specs::convert::FromSpecImpl<File> for u8 {
    open spec fn obeys_from_spec() -> bool {
        true
    }

    open spec fn from_spec(value: File) -> u8 {
        value.numeral()
    }
}

impl From<File> for u8 {
    /// The same as [`File::numeral`].
    fn from(value: File) -> (numeral: u8)
        ensures
            numeral == value.numeral(),
    {
        value.numeral()
    }
}

impl vstd::std_specs::convert::FromSpecImpl<Square> for u8 {
    open spec fn obeys_from_spec() -> bool {
        true
    }

    open spec fn from_spec(value: Square) -> u8 {
        value.to_index()
    }
}

impl From<Square> for u8 {
    /// Map a `Square` to a u8 index for use in `BitBoard`: the same as
    /// [`Square::to_index`].
    fn from(value: Square) -> (index: u8)
        ensures
            index == value.to_index(),
    {
        value.to_index()
    }
}

impl FromStr for Square {
    type Err = ParseError;

    /// The same as [`Square::parse`].
    fn from_str(s: &str) -> (found: Result<Square, ParseError>)
        ensures
            Square::parsed(s@, s.spec_bytes().len(), found),
            found is Ok <==> s@.len() == 2 && Square::of_chars(s@[0], s@[1]) is Ok,
    {
        Square::parse(s)
    }
}

} // verus!
