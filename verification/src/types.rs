//! The basic values of the game: colours, piece kinds, pieces and squares.

use vstd::prelude::*;
use vstd::string::*;

verus! {

/// The side a piece belongs to.
#[derive(Debug, Clone, Copy, PartialEq, Eq, Hash, Structural)]
pub enum Color {
    White,
    Black,
}

impl Color {
    /// The other colour.
    pub open spec fn spec_opposite(self) -> Color {
        match self {
            Color::White => Color::Black,
            Color::Black => Color::White,
        }
    }

    /// Returns the other colour.
    pub fn opposite(&self) -> (other: Color)
        ensures
            other == self.spec_opposite(),
            other != *self,
            other.spec_opposite() == *self,
    {
        match self {
            Color::White => Color::Black,
            Color::Black => Color::White,
        }
    }
}

/// The six kinds of chess piece.
#[derive(Debug, Clone, Copy, PartialEq, Eq, Hash, Structural)]
pub enum PieceType {
    King,
    Queen,
    Rook,
    Bishop,
    Knight,
    Pawn,
}

/// A piece: a kind and the colour that owns it.
#[derive(Debug, Clone, Copy, PartialEq, Eq, Hash, Structural)]
pub struct Piece {
    pub piece_type: PieceType,
    pub color: Color,
}

impl Piece {
    /// Creates a piece of the given kind and colour.
    pub fn new(piece_type: PieceType, color: Color) -> (piece: Piece)
        ensures
            piece == (Piece { piece_type, color }),
    {
        Piece { piece_type, color }
    }
}

/// A square of the board. Files and ranks are zero-based: file 0 is the
/// a-file, rank 0 is White's home rank.
#[derive(Debug, Clone, Copy, PartialEq, Eq, Hash, Structural)]
pub struct Position {
    pub file: u8,
    pub rank: u8,
}

/// The letter that names a file, `a` for file 0 up to `h` for file 7.
pub open spec fn file_letter(file: u8) -> char {
    if file == 0 {
        'a'
    } else if file == 1 {
        'b'
    } else if file == 2 {
        'c'
    } else if file == 3 {
        'd'
    } else if file == 4 {
        'e'
    } else if file == 5 {
        'f'
    } else if file == 6 {
        'g'
    } else {
        'h'
    }
}

/// The character of a decimal digit.
pub open spec fn digit_char(d: nat) -> char {
    if d == 0 {
        '0'
    } else if d == 1 {
        '1'
    } else if d == 2 {
        '2'
    } else if d == 3 {
        '3'
    } else if d == 4 {
        '4'
    } else if d == 5 {
        '5'
    } else if d == 6 {
        '6'
    } else if d == 7 {
        '7'
    } else if d == 8 {
        '8'
    } else {
        '9'
    }
}

/// The file that a letter names, if it is one of `a` to `h`.
pub open spec fn letter_file(c: char) -> Option<u8> {
    if c == 'a' {
        Some(0u8)
    } else if c == 'b' {
        Some(1u8)
    } else if c == 'c' {
        Some(2u8)
    } else if c == 'd' {
        Some(3u8)
    } else if c == 'e' {
        Some(4u8)
    } else if c == 'f' {
        Some(5u8)
    } else if c == 'g' {
        Some(6u8)
    } else if c == 'h' {
        Some(7u8)
    } else {
        None
    }
}

/// The rank that a digit names, if it is one of `1` to `8`.
pub open spec fn digit_rank(c: char) -> Option<u8> {
    if c == '1' {
        Some(0u8)
    } else if c == '2' {
        Some(1u8)
    } else if c == '3' {
        Some(2u8)
    } else if c == '4' {
        Some(3u8)
    } else if c == '5' {
        Some(4u8)
    } else if c == '6' {
        Some(5u8)
    } else if c == '7' {
        Some(6u8)
    } else if c == '8' {
        Some(7u8)
    } else {
        None
    }
}

/// The decimal digits of a number, most significant first.
pub open spec fn decimal_digits(n: nat) -> Seq<char>
    decreases n,
{
    if n < 10 {
        seq![digit_char(n)]
    } else {
        decimal_digits(n / 10).push(digit_char(n % 10))
    }
}

/// The text that describes a square outside the board.
pub open spec fn invalid_position_text(file: u8, rank: u8) -> Seq<char> {
    "Invalid position: file="@ + decimal_digits(file as nat) + ", rank="@ + decimal_digits(
        rank as nat,
    )
}

/// The square that a text in chess notation names: a file letter followed by
/// a rank digit, and nothing else.
pub open spec fn parse_notation(text: Seq<char>) -> Option<Position> {
    if text.len() == 2 && letter_file(text[0]).is_some() && digit_rank(text[1]).is_some() {
        Some(Position { file: letter_file(text[0]).unwrap(), rank: digit_rank(text[1]).unwrap() })
    } else {
        None
    }
}

fn digit_text(d: u8) -> (text: &'static str)
    requires
        d < 10,
    ensures
        text@ == seq![digit_char(d as nat)],
{
    proof {
        reveal_strlit("0");
        reveal_strlit("1");
        reveal_strlit("2");
        reveal_strlit("3");
        reveal_strlit("4");
        reveal_strlit("5");
        reveal_strlit("6");
        reveal_strlit("7");
        reveal_strlit("8");
        reveal_strlit("9");
    }
    let text = if d == 0 {
        "0"
    } else if d == 1 {
        "1"
    } else if d == 2 {
        "2"
    } else if d == 3 {
        "3"
    } else if d == 4 {
        "4"
    } else if d == 5 {
        "5"
    } else if d == 6 {
        "6"
    } else if d == 7 {
        "7"
    } else if d == 8 {
        "8"
    } else {
        "9"
    };
    text
}

fn file_text(file: u8) -> (text: &'static str)
    requires
        file < 8,
    ensures
        text@ == seq![file_letter(file)],
{
    proof {
        reveal_strlit("a");
        reveal_strlit("b");
        reveal_strlit("c");
        reveal_strlit("d");
        reveal_strlit("e");
        reveal_strlit("f");
        reveal_strlit("g");
        reveal_strlit("h");
    }
    let text = if file == 0 {
        "a"
    } else if file == 1 {
        "b"
    } else if file == 2 {
        "c"
    } else if file == 3 {
        "d"
    } else if file == 4 {
        "e"
    } else if file == 5 {
        "f"
    } else if file == 6 {
        "g"
    } else {
        "h"
    };
    text
}

/// Appends the decimal digits of `n` to `out`.
fn push_decimal(out: &mut String, n: u8)
    ensures
        final(out)@ == old(out)@ + decimal_digits(n as nat),
{
    if n >= 100 {
        out.append(digit_text(n / 100));
    }
    if n >= 10 {
        out.append(digit_text((n / 10) % 10));
    }
    out.append(digit_text(n % 10));
    proof {
        let v = n as nat;
        if v >= 100 {
            assert(decimal_digits(v / 100) =~= seq![digit_char(v / 100)]);
            assert(decimal_digits(v / 10) =~= seq![digit_char(v / 100), digit_char((v / 10) % 10)]);
        } else if v >= 10 {
            assert(decimal_digits(v / 10) =~= seq![digit_char(v / 10)]);
        }
    }
}

impl Position {
    /// Whether both coordinates lie on the board.
    pub open spec fn spec_is_valid(self) -> bool {
        self.file < 8 && self.rank < 8
    }

    /// The notation of this square: the file letter and the rank digit of a
    /// square on the board, a description of the coordinates of any other.
    pub open spec fn notation(self) -> Seq<char> {
        if self.spec_is_valid() {
            seq![file_letter(self.file), digit_char(self.rank as nat + 1)]
        } else {
            invalid_position_text(self.file, self.rank)
        }
    }

    /// Creates a square, or nothing when a coordinate lies outside the board.
    pub fn new(file: u8, rank: u8) -> (pos: Option<Position>)
        ensures
            pos == if file < 8 && rank < 8 {
                Some(Position { file, rank })
            } else {
                None
            },
    {
        if file < 8 && rank < 8 {
            Some(Position { file, rank })
        } else {
            None
        }
    }

    /// Whether the square lies on the board.
    pub fn is_valid(&self) -> (valid: bool)
        ensures
            valid == self.spec_is_valid(),
    {
        self.file < 8 && self.rank < 8
    }

    /// Reads a square from chess notation, such as `e4`. Anything but a file
    /// letter `a` to `h` followed by a rank digit `1` to `8` gives nothing.
    pub fn from_notation(notation: &str) -> (pos: Option<Position>)
        ensures
            pos == parse_notation(notation@),
            pos.is_some() ==> pos.unwrap().spec_is_valid(),
    {
        if notation.unicode_len() != 2 {
            return None;
        }
        let file_char = notation.get_char(0);
        let rank_char = notation.get_char(1);
        let file: u8 = if file_char == 'a' {
            0
        } else if file_char == 'b' {
            1
        } else if file_char == 'c' {
            2
        } else if file_char == 'd' {
            3
        } else if file_char == 'e' {
            4
        } else if file_char == 'f' {
            5
        } else if file_char == 'g' {
            6
        } else if file_char == 'h' {
            7
        } else {
            return None;
        };
        let rank: u8 = if rank_char == '1' {
            0
        } else if rank_char == '2' {
            1
        } else if rank_char == '3' {
            2
        } else if rank_char == '4' {
            3
        } else if rank_char == '5' {
            4
        } else if rank_char == '6' {
            5
        } else if rank_char == '7' {
            6
        } else if rank_char == '8' {
            7
        } else {
            return None;
        };
        Some(Position { file, rank })
    }

    /// Writes the square in chess notation. A square outside the board has
    /// no notation; for it the text names the offending coordinates.
    pub fn to_notation(&self) -> (text: String)
        ensures
            text@ == self.notation(),
    {
        if !self.is_valid() {
            let mut text = String::from_str("Invalid position: file=");
            push_decimal(&mut text, self.file);
            text.append(", rank=");
            push_decimal(&mut text, self.rank);
            return text;
        }
        let mut text = String::from_str(file_text(self.file));
        text.append(digit_text(self.rank + 1));
        text
    }
}

/// Writing a square of the board in chess notation and reading the text back
/// gives the same square.
pub proof fn lemma_notation_round_trip(pos: Position)
    requires
        pos.spec_is_valid(),
    ensures
        parse_notation(pos.notation()) == Some(pos),
{
    let text = pos.notation();
}

/// A text that names a square names a square of the board, and writing that
/// square gives the text back.
pub proof fn lemma_notation_parses_back(text: Seq<char>)
    requires
        parse_notation(text).is_some(),
    ensures
        parse_notation(text).unwrap().spec_is_valid(),
        parse_notation(text).unwrap().notation() == text,
{
    let pos = parse_notation(text).unwrap();
}

} // verus!
