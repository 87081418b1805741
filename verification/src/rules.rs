//! The rules of chess, stated as mathematics: how each piece moves, when a square
//! is attacked, what a move does to the board, which moves are legal and how
//! a game stands. Everything here is mathematics over a placement of pieces
//! (the view of a `Board`) and a sequence of earlier moves; it is what the
//! executable functions of the other modules are proved against.

use vstd::prelude::*;
use crate::board::{at, is_of_color, square_index};
use crate::state::{GameStatus, Move, MoveError};
use crate::types::{Color, Piece, PieceType, Position};

verus! {

/// The distance between two coordinates.
pub open spec fn abs_diff(a: int, b: int) -> int {
    if a >= b {
        a - b
    } else {
        b - a
    }
}

/// The coordinate `k` steps away from `start`, towards the side that
/// `delta` points to.
pub open spec fn stepped(start: int, k: int, delta: int) -> int {
    if delta > 0 {
        start + k
    } else if delta < 0 {
        start - k
    } else {
        start
    }
}

/// The number of steps from one square to another along a line.
pub open spec fn span(from: Position, to: Position) -> int {
    if abs_diff(from.file as int, to.file as int) >= abs_diff(from.rank as int, to.rank as int) {
        abs_diff(from.file as int, to.file as int)
    } else {
        abs_diff(from.rank as int, to.rank as int)
    }
}

/// What stands `k` steps from `from` on the way to `to`.
pub open spec fn on_path(cells: Seq<Option<Piece>>, from: Position, to: Position, k: int) -> Option<
    Piece,
> {
    at(
        cells,
        stepped(from.file as int, k, to.file - from.file),
        stepped(from.rank as int, k, to.rank - from.rank),
    )
}

/// Every square strictly between the two is empty.
pub open spec fn path_clear(cells: Seq<Option<Piece>>, from: Position, to: Position) -> bool {
    forall|k: int| 0 < k < span(from, to) ==> (#[trigger] on_path(cells, from, to, k)).is_none()
}

/// A move along a diagonal, of at least one square.
pub open spec fn is_diagonal(from: Position, to: Position) -> bool {
    abs_diff(from.file as int, to.file as int) == abs_diff(from.rank as int, to.rank as int)
        && from.file != to.file
}

/// A move along a rank or a file, of at least one square.
pub open spec fn is_straight(from: Position, to: Position) -> bool {
    (from.file == to.file) != (from.rank == to.rank)
}

/// The knight's leap: two squares one way and one square across.
pub open spec fn is_knight_leap(from: Position, to: Position) -> bool {
    (abs_diff(from.rank as int, to.rank as int) == 2 && abs_diff(from.file as int, to.file as int)
        == 1) || (abs_diff(from.rank as int, to.rank as int) == 1 && abs_diff(
        from.file as int,
        to.file as int,
    ) == 2)
}

/// At most one square in each direction.
pub open spec fn is_king_step(from: Position, to: Position) -> bool {
    abs_diff(from.rank as int, to.rank as int) <= 1 && abs_diff(from.file as int, to.file as int)
        <= 1
}

/// Two files along a rank: the shape of castling.
pub open spec fn is_castling_shape(from: Position, to: Position) -> bool {
    from.rank == to.rank && abs_diff(from.file as int, to.file as int) == 2
}

/// The direction in which a colour's pawns advance.
pub open spec fn forward(color: Color) -> int {
    match color {
        Color::White => 1,
        Color::Black => -1,
    }
}

/// The rank on which a colour's pawns start.
pub open spec fn pawn_home_rank(color: Color) -> int {
    match color {
        Color::White => 1,
        Color::Black => 6,
    }
}

/// The rank on which a colour's pawns promote.
pub open spec fn far_rank(color: Color) -> int {
    match color {
        Color::White => 7,
        Color::Black => 0,
    }
}

/// The rank on which a colour's king and rooks start.
pub open spec fn king_home_rank(color: Color) -> int {
    match color {
        Color::White => 0,
        Color::Black => 7,
    }
}

/// What a placement holds on a square.
pub open spec fn piece_at(cells: Seq<Option<Piece>>, pos: Position) -> Option<Piece> {
    at(cells, pos.file as int, pos.rank as int)
}

/// Whether a square holds a piece of the given colour.
pub open spec fn holds_color(cells: Seq<Option<Piece>>, pos: Position, color: Color) -> bool {
    is_of_color(piece_at(cells, pos), color)
}

/// Whether a piece standing on `from` reaches `target` by its own way of
/// moving, whoever's king that may expose. A pawn reaches the two squares
/// that it captures on; a king reaches the squares around it.
pub open spec fn reaches(
    cells: Seq<Option<Piece>>,
    piece: Piece,
    from: Position,
    target: Position,
) -> bool {
    match piece.piece_type {
        PieceType::Pawn => target.rank - from.rank == forward(piece.color) && abs_diff(
            from.file as int,
            target.file as int,
        ) == 1,
        PieceType::Knight => is_knight_leap(from, target),
        PieceType::Bishop => is_diagonal(from, target) && path_clear(cells, from, target),
        PieceType::Rook => is_straight(from, target) && path_clear(cells, from, target),
        PieceType::Queen => (is_diagonal(from, target) || is_straight(from, target)) && path_clear(
            cells,
            from,
            target,
        ),
        PieceType::King => is_king_step(from, target),
    }
}

/// Whether `from` holds a piece of colour `by` that reaches `target`.
pub open spec fn attacks_from(
    cells: Seq<Option<Piece>>,
    by: Color,
    from: Position,
    target: Position,
) -> bool {
    from.spec_is_valid() && holds_color(cells, from, by) && reaches(
        cells,
        piece_at(cells, from).unwrap(),
        from,
        target,
    )
}

/// Whether some piece of colour `by` reaches the square `target` of the
/// board.
pub open spec fn is_attacked(cells: Seq<Option<Piece>>, target: Position, by: Color) -> bool {
    target.spec_is_valid() && exists|from: Position| #[trigger]
        attacks_from(cells, by, from, target)
}

/// Whether a square holds the king of a colour.
pub open spec fn is_king_of(cells: Seq<Option<Piece>>, color: Color, pos: Position) -> bool {
    piece_at(cells, pos) == Some(Piece { piece_type: PieceType::King, color })
}

/// Whether at most one square holds the king of a colour.
pub open spec fn at_most_one_king(cells: Seq<Option<Piece>>, color: Color) -> bool {
    forall|p: Position, q: Position|
        p.spec_is_valid() && q.spec_is_valid() && #[trigger] is_king_of(cells, color, p)
            && #[trigger] is_king_of(cells, color, q) ==> p == q
}

/// The place of a square when the board is read rank by rank.
pub open spec fn scan_index(pos: Position) -> int {
    square_index(pos.file as int, pos.rank as int)
}

/// Whether a square holds the king of a colour and no square read before it
/// does.
pub open spec fn is_first_king(cells: Seq<Option<Piece>>, color: Color, pos: Position) -> bool {
    pos.spec_is_valid() && is_king_of(cells, color, pos) && forall|other: Position|
        other.spec_is_valid() && scan_index(other) < scan_index(pos) ==> !#[trigger] is_king_of(
            cells,
            color,
            other,
        )
}

/// Whether the king of a colour stands attacked. A placement without that
/// king is not in check.
pub open spec fn in_check(cells: Seq<Option<Piece>>, color: Color) -> bool {
    exists|king: Position| #[trigger]
        is_first_king(cells, color, king) && is_attacked(cells, king, color.spec_opposite())
}

/// Whether some earlier move started from the given square.
pub open spec fn has_moved_from(history: Seq<Move>, pos: Position) -> bool {
    exists|i: int| 0 <= i < history.len() && (#[trigger] history[i]).from == pos
}

/// The file from which the rook castles, by the king's destination file.
pub open spec fn castling_rook_file(king_to_file: int) -> int {
    if king_to_file == 6 {
        7
    } else {
        0
    }
}

/// The file that the king crosses, and on which the rook lands.
pub open spec fn castling_crossed_file(king_to_file: int) -> int {
    if king_to_file == 6 {
        5
    } else {
        3
    }
}

/// A square given by a file and a rank that lie on the board.
pub open spec fn square(file: int, rank: int) -> Position {
    Position { file: file as u8, rank: rank as u8 }
}

/// The squares strictly between a king on its home square and the rook it
/// castles with are empty.
pub open spec fn castling_lane_empty(cells: Seq<Option<Piece>>, king_to_file: int, rank: int) -> bool {
    if king_to_file == 6 {
        at(cells, 5, rank).is_none() && at(cells, 6, rank).is_none()
    } else {
        at(cells, 1, rank).is_none() && at(cells, 2, rank).is_none() && at(cells, 3, rank).is_none()
    }
}

/// Whether the king of `color` may castle from `from` to `to`: the move goes
/// from the king's home square two files towards a rook of its colour that
/// stands on its home square, no move has ever started from either of these
/// home squares, the squares between them are empty, and neither the king's
/// square, the square it crosses nor the square it lands on is attacked.
pub open spec fn can_castle(
    cells: Seq<Option<Piece>>,
    history: Seq<Move>,
    color: Color,
    from: Position,
    to: Position,
) -> bool {
    let home = king_home_rank(color);
    let rook_file = castling_rook_file(to.file as int);
    let enemy = color.spec_opposite();
    &&& from.file == 4 && from.rank == home && to.rank == home && (to.file == 6 || to.file == 2)
    &&& !has_moved_from(history, from)
    &&& !has_moved_from(history, square(rook_file, home))
    &&& at(cells, rook_file, home) == Some(Piece { piece_type: PieceType::Rook, color })
    &&& castling_lane_empty(cells, to.file as int, home)
    &&& !is_attacked(cells, from, enemy)
    &&& !is_attacked(cells, square(castling_crossed_file(to.file as int), home), enemy)
    &&& !is_attacked(cells, to, enemy)
}

/// Whether a pawn of `color` may capture in passing from `from` to `to`: the
/// destination is empty, and the move just before was an enemy pawn's
/// advance of two squares that ended beside `from`, on the file of `to`.
pub open spec fn en_passant_allowed(
    cells: Seq<Option<Piece>>,
    history: Seq<Move>,
    color: Color,
    from: Position,
    to: Position,
) -> bool {
    history.len() > 0 && {
        let last = history.last();
        &&& piece_at(cells, to).is_none()
        &&& piece_at(cells, last.to) == Some(
            Piece { piece_type: PieceType::Pawn, color: color.spec_opposite() },
        )
        &&& last.to.file == to.file
        &&& last.to.rank == from.rank
        &&& last.from.file == last.to.file
        &&& abs_diff(last.from.rank as int, last.to.rank as int) == 2
    }
}

/// One square straight ahead, onto an empty square.
pub open spec fn pawn_single_step(
    cells: Seq<Option<Piece>>,
    color: Color,
    from: Position,
    to: Position,
) -> bool {
    to.file == from.file && to.rank == from.rank + forward(color) && piece_at(cells, to).is_none()
}

/// Two squares straight ahead from the pawn's home rank, over an empty
/// square onto an empty square.
pub open spec fn pawn_double_step(
    cells: Seq<Option<Piece>>,
    color: Color,
    from: Position,
    to: Position,
) -> bool {
    to.file == from.file && from.rank == pawn_home_rank(color) && to.rank == from.rank + 2
        * forward(color) && at(cells, from.file as int, from.rank + forward(color)).is_none()
        && piece_at(cells, to).is_none()
}

/// One square diagonally ahead, onto a piece or in passing.
pub open spec fn pawn_capture(
    cells: Seq<Option<Piece>>,
    history: Seq<Move>,
    color: Color,
    from: Position,
    to: Position,
) -> bool {
    abs_diff(from.file as int, to.file as int) == 1 && to.rank == from.rank + forward(color) && (
    piece_at(cells, to).is_some() || en_passant_allowed(cells, history, color, from, to))
}

/// The ways a pawn moves.
pub open spec fn pawn_pattern(
    cells: Seq<Option<Piece>>,
    history: Seq<Move>,
    color: Color,
    from: Position,
    to: Position,
) -> bool {
    pawn_single_step(cells, color, from, to) || pawn_double_step(cells, color, from, to)
        || pawn_capture(cells, history, color, from, to)
}

/// Whether the piece on `from` may go to `to` by the way its kind moves,
/// castling and capturing in passing included. Whose turn it is, what
/// stands on `to` and the safety of the king are judged elsewhere.
pub open spec fn piece_pattern(
    cells: Seq<Option<Piece>>,
    history: Seq<Move>,
    piece: Piece,
    from: Position,
    to: Position,
) -> bool {
    match piece.piece_type {
        PieceType::Pawn => pawn_pattern(cells, history, piece.color, from, to),
        PieceType::Knight => is_knight_leap(from, to),
        PieceType::Bishop => is_diagonal(from, to) && path_clear(cells, from, to),
        PieceType::Rook => is_straight(from, to) && path_clear(cells, from, to),
        PieceType::Queen => (is_diagonal(from, to) || is_straight(from, to)) && path_clear(
            cells,
            from,
            to,
        ),
        PieceType::King => is_king_step(from, to) || (is_castling_shape(from, to) && can_castle(
            cells,
            history,
            piece.color,
            from,
            to,
        )),
    }
}

/// Whether a pawn that reaches `to` promotes there.
pub open spec fn promotes(piece: Piece, to: Position) -> bool {
    piece.piece_type == PieceType::Pawn && to.rank == far_rank(piece.color)
}

/// The piece that arrives on the destination: the chosen piece for a pawn
/// that promotes, else the piece that left.
pub open spec fn arriving_piece(piece: Piece, to: Position, promotion: Option<PieceType>) -> Piece {
    if promotes(piece, to) && promotion.is_some() {
        Piece { piece_type: promotion.unwrap(), color: piece.color }
    } else {
        piece
    }
}

/// Whether the move is a king's move of castling shape.
pub open spec fn moves_as_castling(cells: Seq<Option<Piece>>, from: Position, to: Position) -> bool {
    piece_at(cells, from).is_some() && piece_at(cells, from).unwrap().piece_type
        == PieceType::King && is_castling_shape(from, to)
}

/// Whether the move is a pawn's move to an empty square of another file.
pub open spec fn moves_in_passing(cells: Seq<Option<Piece>>, from: Position, to: Position) -> bool {
    piece_at(cells, from).is_some() && piece_at(cells, from).unwrap().piece_type
        == PieceType::Pawn && from.file != to.file && piece_at(cells, to).is_none()
}

/// The placement after the piece on `from` has gone to `to`. The origin is
/// emptied and the destination holds the arriving piece. A castling king
/// takes its rook along, to the square that the king crossed. A pawn that
/// captures in passing removes the pawn beside it.
pub open spec fn after_move(
    cells: Seq<Option<Piece>>,
    from: Position,
    to: Position,
    promotion: Option<PieceType>,
) -> Seq<Option<Piece>>
    recommends
        from.spec_is_valid(),
        to.spec_is_valid(),
        piece_at(cells, from).is_some(),
{
    let piece = piece_at(cells, from).unwrap();
    let moved = cells.update(scan_index(from), None).update(
        scan_index(to),
        Some(arriving_piece(piece, to, promotion)),
    );
    if moves_as_castling(cells, from, to) {
        let rook_from = square_index(if to.file > from.file { 7 } else { 0 }, from.rank as int);
        let rook_to = square_index(if to.file > from.file { 5 } else { 3 }, from.rank as int);
        moved.update(rook_from, None).update(rook_to, cells[rook_from])
    } else if moves_in_passing(cells, from, to) {
        moved.update(square_index(to.file as int, from.rank as int), None)
    } else {
        moved
    }
}

/// Whether `color` may move the piece on `from` to `to`, a promoting pawn
/// becoming `promotion`: both squares lie on the board, `from` holds a piece
/// of that colour, `to` holds none of that colour, the piece's kind moves
/// that way, and afterwards the mover's king is not attacked.
pub open spec fn is_legal_with(
    cells: Seq<Option<Piece>>,
    history: Seq<Move>,
    color: Color,
    from: Position,
    to: Position,
    promotion: Option<PieceType>,
) -> bool {
    &&& from.spec_is_valid()
    &&& to.spec_is_valid()
    &&& holds_color(cells, from, color)
    &&& !holds_color(cells, to, color)
    &&& piece_pattern(cells, history, piece_at(cells, from).unwrap(), from, to)
    &&& !in_check(after_move(cells, from, to, promotion), color)
}

/// Whether `color` may move the piece on `from` to `to`.
pub open spec fn is_legal(
    cells: Seq<Option<Piece>>,
    history: Seq<Move>,
    color: Color,
    from: Position,
    to: Position,
) -> bool {
    is_legal_with(cells, history, color, from, to, None)
}

/// Whether `color` has any legal move.
pub open spec fn has_legal_move(cells: Seq<Option<Piece>>, history: Seq<Move>, color: Color) -> bool {
    exists|from: Position, to: Position| #[trigger] is_legal(cells, history, color, from, to)
}

/// The place of a move when all moves are read by origin, then by
/// destination.
pub open spec fn move_index(from: Position, to: Position) -> int {
    scan_index(from) * 64 + scan_index(to)
}

/// How the game stands for the colour that is about to move.
pub open spec fn status_for(cells: Seq<Option<Piece>>, history: Seq<Move>, color: Color) -> GameStatus {
    if in_check(cells, color) {
        if has_legal_move(cells, history, color) {
            GameStatus::Check { color }
        } else {
            GameStatus::Checkmate { winner: color.spec_opposite() }
        }
    } else if has_legal_move(cells, history, color) {
        GameStatus::InProgress
    } else {
        GameStatus::Stalemate
    }
}

/// Why the kind of the piece on `from` does not move to `to`, if it does
/// not: a sliding piece on the right line but with something in its way is
/// blocked, a king's move of castling shape that may not castle is an
/// invalid castling, anything else is an invalid movement.
pub open spec fn pattern_error(
    cells: Seq<Option<Piece>>,
    history: Seq<Move>,
    piece: Piece,
    from: Position,
    to: Position,
) -> Option<MoveError> {
    match piece.piece_type {
        PieceType::Pawn => if pawn_pattern(cells, history, piece.color, from, to) {
            None
        } else {
            Some(MoveError::InvalidPieceMovement)
        },
        PieceType::Knight => if is_knight_leap(from, to) {
            None
        } else {
            Some(MoveError::InvalidPieceMovement)
        },
        PieceType::Bishop => if !is_diagonal(from, to) {
            Some(MoveError::InvalidPieceMovement)
        } else if !path_clear(cells, from, to) {
            Some(MoveError::PathBlocked)
        } else {
            None
        },
        PieceType::Rook => if !is_straight(from, to) {
            Some(MoveError::InvalidPieceMovement)
        } else if !path_clear(cells, from, to) {
            Some(MoveError::PathBlocked)
        } else {
            None
        },
        PieceType::Queen => if !is_diagonal(from, to) && !is_straight(from, to) {
            Some(MoveError::InvalidPieceMovement)
        } else if !path_clear(cells, from, to) {
            Some(MoveError::PathBlocked)
        } else {
            None
        },
        PieceType::King => if is_king_step(from, to) {
            None
        } else if !is_castling_shape(from, to) {
            Some(MoveError::InvalidPieceMovement)
        } else if !can_castle(cells, history, piece.color, from, to) {
            Some(MoveError::InvalidCastling)
        } else {
            None
        },
    }
}

/// Whether the choice of promotion piece is refused: a pawn or a king is
/// never accepted, and a pawn that promotes needs a choice.
pub open spec fn promotion_refused(piece: Piece, to: Position, promotion: Option<PieceType>) -> bool {
    promotion == Some(PieceType::Pawn) || promotion == Some(PieceType::King) || (promotes(piece, to)
        && promotion.is_none())
}

/// Why a move is refused, if it is. The reasons are tried in this order: the
/// game is over; the origin holds no piece; the piece is not the mover's;
/// the destination holds a piece of the mover's; the kind of the piece does
/// not move that way; the promotion choice is refused; the mover's king
/// would be attacked afterwards.
pub open spec fn move_error(
    status: GameStatus,
    cells: Seq<Option<Piece>>,
    history: Seq<Move>,
    player: Color,
    from: Position,
    to: Position,
    promotion: Option<PieceType>,
) -> Option<MoveError> {
    if status.is_terminal() {
        Some(MoveError::GameAlreadyOver)
    } else if piece_at(cells, from).is_none() {
        Some(MoveError::NoPieceAtSource)
    } else if piece_at(cells, from).unwrap().color != player {
        Some(MoveError::WrongPlayer)
    } else if !to.spec_is_valid() {
        Some(MoveError::InvalidPieceMovement)
    } else if holds_color(cells, to, player) {
        Some(MoveError::OccupiedByOwnColor)
    } else if pattern_error(cells, history, piece_at(cells, from).unwrap(), from, to).is_some() {
        pattern_error(cells, history, piece_at(cells, from).unwrap(), from, to)
    } else if promotion_refused(piece_at(cells, from).unwrap(), to, promotion) {
        Some(MoveError::InvalidPromotionChoice)
    } else if in_check(after_move(cells, from, to, promotion), player) {
        Some(MoveError::MoveIntoCheck)
    } else {
        None
    }
}

/// The promotion that a move records: the choice, where the pawn promotes.
pub open spec fn recorded_promotion(
    cells: Seq<Option<Piece>>,
    from: Position,
    to: Position,
    promotion: Option<PieceType>,
) -> Option<PieceType> {
    if piece_at(cells, from).is_some() && promotes(piece_at(cells, from).unwrap(), to) {
        promotion
    } else {
        None
    }
}

} // verus!
