//! The board: sixty-four squares, each empty or holding one piece. The board
//! knows nothing of turns or history.

use vstd::prelude::*;
use crate::types::{Color, Piece, PieceType, Position};

verus! {

/// Whether a file and a rank name a square of the board.
pub open spec fn on_board(file: int, rank: int) -> bool {
    0 <= file < 8 && 0 <= rank < 8
}

/// Where a square stands in a placement: rank by rank, file by file.
pub open spec fn square_index(file: int, rank: int) -> int {
    rank * 8 + file
}

/// What a placement holds on a square; nothing outside the board.
pub open spec fn at(cells: Seq<Option<Piece>>, file: int, rank: int) -> Option<Piece> {
    if on_board(file, rank) && square_index(file, rank) < cells.len() {
        cells[square_index(file, rank)]
    } else {
        None
    }
}

/// The kind of piece that starts on a file of a back rank.
pub open spec fn back_rank_kind(file: int) -> PieceType {
    if file == 0 || file == 7 {
        PieceType::Rook
    } else if file == 1 || file == 6 {
        PieceType::Knight
    } else if file == 2 || file == 5 {
        PieceType::Bishop
    } else if file == 3 {
        PieceType::Queen
    } else {
        PieceType::King
    }
}

/// What stands on a square when a game begins.
pub open spec fn initial_piece(file: int, rank: int) -> Option<Piece> {
    if !on_board(file, rank) {
        None
    } else if rank == 0 {
        Some(Piece { piece_type: back_rank_kind(file), color: Color::White })
    } else if rank == 1 {
        Some(Piece { piece_type: PieceType::Pawn, color: Color::White })
    } else if rank == 6 {
        Some(Piece { piece_type: PieceType::Pawn, color: Color::Black })
    } else if rank == 7 {
        Some(Piece { piece_type: back_rank_kind(file), color: Color::Black })
    } else {
        None
    }
}

/// Whether a square holds a piece of the given colour.
pub open spec fn is_of_color(cell: Option<Piece>, color: Color) -> bool {
    cell.is_some() && cell.unwrap().color == color
}

/// The number of pieces of a colour on the first `n` squares of a
/// placement.
pub open spec fn count_among(cells: Seq<Option<Piece>>, color: Color, n: nat) -> nat
    decreases n,
{
    if n == 0 || n > cells.len() {
        0
    } else {
        count_among(cells, color, (n - 1) as nat) + if is_of_color(cells[n - 1], color) {
            1nat
        } else {
            0nat
        }
    }
}

/// The number of pieces of a colour in a placement.
pub open spec fn count_of_color(cells: Seq<Option<Piece>>, color: Color) -> nat {
    count_among(cells, color, cells.len())
}

/// Over a stretch of squares that all hold a piece of the colour, the count
/// grows by the length of the stretch; over a stretch in which none does,
/// it stays.
pub proof fn lemma_count_over_stretch(
    cells: Seq<Option<Piece>>,
    color: Color,
    low: nat,
    high: nat,
    held: bool,
)
    requires
        low <= high <= cells.len(),
        forall|i: int| low <= i < high ==> is_of_color(#[trigger] cells[i], color) == held,
    ensures
        count_among(cells, color, high) == count_among(cells, color, low) + if held {
            high - low
        } else {
            0
        },
    decreases high,
{
    if low < high {
        lemma_count_over_stretch(cells, color, low, (high - 1) as nat, held);
    }
}

/// A placement of pieces on the sixty-four squares.
#[derive(Debug, Clone, Copy, PartialEq, Eq)]
pub struct Board {
    pub cells: [Option<Piece>; 64],
}

impl View for Board {
    type V = Seq<Option<Piece>>;

    /// The squares rank by rank, from White's home rank, each rank from the
    /// a-file.
    open spec fn view(&self) -> Seq<Option<Piece>> {
        self.cells@
    }
}

fn starting_piece(file: u8, rank: u8) -> (piece: Option<Piece>)
    requires
        file < 8,
        rank < 8,
    ensures
        piece == initial_piece(file as int, rank as int),
{
    let kind = if file == 0 || file == 7 {
        PieceType::Rook
    } else if file == 1 || file == 6 {
        PieceType::Knight
    } else if file == 2 || file == 5 {
        PieceType::Bishop
    } else if file == 3 {
        PieceType::Queen
    } else {
        PieceType::King
    };
    if rank == 0 {
        Some(Piece { piece_type: kind, color: Color::White })
    } else if rank == 1 {
        Some(Piece { piece_type: PieceType::Pawn, color: Color::White })
    } else if rank == 6 {
        Some(Piece { piece_type: PieceType::Pawn, color: Color::Black })
    } else if rank == 7 {
        Some(Piece { piece_type: kind, color: Color::Black })
    } else {
        None
    }
}

impl Board {
    /// What the board holds on a square; nothing for a square outside it.
    pub open spec fn spec_get(&self, pos: Position) -> Option<Piece> {
        at(self@, pos.file as int, pos.rank as int)
    }

    /// Creates a board with no piece on it.
    pub fn new() -> (board: Board)
        ensures
            board@.len() == 64,
            forall|i: int| 0 <= i < 64 ==> board@[i].is_none(),
    {
        Board { cells: [None;64] }
    }

    /// Creates the board as it stands when a game begins: on each side's
    /// home rank rook, knight, bishop, queen, king, bishop, knight and rook
    /// from the a-file on, the pawns on the rank before it, sixteen pieces
    /// of each colour in all.
    pub fn new_game() -> (board: Board)
        ensures
            board@.len() == 64,
            forall|file: int, rank: int| #[trigger]
                at(board@, file, rank) == initial_piece(file, rank),
            count_of_color(board@, Color::White) == 16,
            count_of_color(board@, Color::Black) == 16,
    {
        let mut board = Board::new();
        let mut index: usize = 0;
        while index < 64
            invariant
                index <= 64,
                board@.len() == 64,
                forall|i: int| index <= i < 64 ==> board@[i].is_none(),
                forall|i: int| 0 <= i < index ==> board@[i] == initial_piece(i % 8, i / 8),
            decreases 64 - index,
        {
            let file: u8 = (index % 8) as u8;
            let rank: u8 = (index / 8) as u8;
            board.cells[index] = starting_piece(file, rank);
            index = index + 1;
        }
        proof {
            let cells = board@;
            lemma_count_over_stretch(cells, Color::White, 0, 16, true);
            lemma_count_over_stretch(cells, Color::White, 16, 64, false);
            lemma_count_over_stretch(cells, Color::Black, 0, 48, false);
            lemma_count_over_stretch(cells, Color::Black, 48, 64, true);
        }
        board
    }

    /// Counts the pieces of a colour.
    pub fn count_pieces_by_color(&self, color: Color) -> (count: usize)
        ensures
            count == count_of_color(self@, color),
            count <= 64,
    {
        let mut count: usize = 0;
        let mut index: usize = 0;
        while index < 64
            invariant
                index <= 64,
                self@.len() == 64,
                count <= index,
                count == count_among(self@, color, index as nat),
            decreases 64 - index,
        {
            match self.cells[index] {
                Some(piece) => {
                    if piece.color == color {
                        count = count + 1;
                    }
                },
                None => {},
            }
            index = index + 1;
        }
        count
    }

    /// Counts the pieces on the board.
    pub fn count_pieces(&self) -> (count: usize)
        ensures
            count == count_of_color(self@, Color::White) + count_of_color(self@, Color::Black),
    {
        self.count_pieces_by_color(Color::White) + self.count_pieces_by_color(Color::Black)
    }

    /// Looks a square up. A square outside the board holds nothing.
    pub fn get_piece(&self, pos: Position) -> (piece: Option<Piece>)
        ensures
            piece == self.spec_get(pos),
    {
        if pos.is_valid() {
            let index: usize = pos.rank as usize * 8 + pos.file as usize;
            self.cells[index]
        } else {
            None
        }
    }

    /// Places a piece on a square, or clears the square when given nothing.
    /// Returns whether the square lies on the board; when it does not, the
    /// board stays as it was.
    pub fn set_piece(&mut self, pos: Position, piece: Option<Piece>) -> (placed: bool)
        ensures
            placed == pos.spec_is_valid(),
            placed ==> final(self)@ == old(self)@.update(
                square_index(pos.file as int, pos.rank as int),
                piece,
            ),
            !placed ==> final(self)@ == old(self)@,
            forall|file: int, rank: int| #[trigger]
                at(final(self)@, file, rank) == if placed && file == pos.file && rank == pos.rank {
                    piece
                } else {
                    at(old(self)@, file, rank)
                },
    {
        if pos.is_valid() {
            let index: usize = pos.rank as usize * 8 + pos.file as usize;
            self.cells[index] = piece;
            true
        } else {
            false
        }
    }
}

} // verus!
