//! Laws of the rules: statements that hold of every board, every history
//! and every move, proved from the definitions in `rules`.

use vstd::prelude::*;
use crate::board::{at, initial_piece, is_of_color, on_board, square_index};
use crate::rules::{
    after_move, arriving_piece, at_most_one_king, attacks_from, can_castle, castling_crossed_file,
    castling_lane_empty, castling_rook_file, forward, has_legal_move, has_moved_from, holds_color,
    in_check, is_attacked, is_castling_shape, is_first_king, is_king_of, is_legal, is_legal_with,
    king_home_rank, move_error, on_path, path_clear, pattern_error, pawn_home_rank, piece_at,
    piece_pattern, promotion_refused, scan_index, square, status_for,
};
use crate::state::{GameState, GameStatus, Move};
use crate::types::{Color, Piece, PieceType, Position};

verus! {

/// Taking the other colour twice gives the colour back, and the other
/// colour is never the same colour.
pub proof fn lemma_opposite_is_involutive(color: Color)
    ensures
        color.spec_opposite().spec_opposite() == color,
        color.spec_opposite() != color,
{
}

/// The turn passes from one colour to the other with every move: White
/// moves first, each move hands the turn to the other colour, and after two
/// moves the same colour is to move again.
pub proof fn lemma_turns_alternate(moves: nat)
    ensures
        GameState::player_after(0) == Color::White,
        GameState::player_after(moves + 1) == GameState::player_after(moves).spec_opposite(),
        GameState::player_after(moves + 1) != GameState::player_after(moves),
        GameState::player_after(moves + 2) == GameState::player_after(moves),
{
}

/// Along any run of accepted moves the colours to move alternate strictly:
/// if each colour in the run is the other colour of the one before it, the
/// colour at an even place is the first one and the colour at an odd place
/// is the other one.
pub proof fn lemma_players_alternate(players: Seq<Color>, place: int)
    requires
        forall|k: int|
            0 <= k < players.len() - 1 ==> players[k + 1] == (#[trigger] players[k]).spec_opposite(),
        0 <= place < players.len(),
    ensures
        players[place] == if place % 2 == 0 {
            players[0]
        } else {
            players[0].spec_opposite()
        },
    decreases place,
{
    if place > 0 {
        lemma_players_alternate(players, place - 1);
        assert(players[place] == players[place - 1].spec_opposite());
    }
}

/// No legal move ends on a square that holds a piece of the mover's colour.
pub proof fn lemma_no_self_capture(
    cells: Seq<Option<Piece>>,
    history: Seq<Move>,
    color: Color,
    from: Position,
    to: Position,
    promotion: Option<PieceType>,
)
    requires
        holds_color(cells, to, color),
    ensures
        !is_legal(cells, history, color, from, to),
        !is_legal_with(cells, history, color, from, to, promotion),
{
}

/// No legal move leaves a piece where it stands.
pub proof fn lemma_no_null_move(
    cells: Seq<Option<Piece>>,
    history: Seq<Move>,
    color: Color,
    from: Position,
)
    ensures
        !is_legal(cells, history, color, from, from),
{
}

/// A move is accepted exactly when the game is not over, the move is legal
/// for the colour to move with the chosen promotion, and the promotion
/// choice is not refused.
pub proof fn lemma_accepted_iff_legal(
    status: GameStatus,
    cells: Seq<Option<Piece>>,
    history: Seq<Move>,
    player: Color,
    from: Position,
    to: Position,
    promotion: Option<PieceType>,
)
    ensures
        move_error(status, cells, history, player, from, to, promotion).is_none() <==> {
            &&& !status.is_terminal()
            &&& is_legal_with(cells, history, player, from, to, promotion)
            &&& !promotion_refused(piece_at(cells, from).unwrap(), to, promotion)
        },
{
    if piece_at(cells, from).is_some() {
        let piece = piece_at(cells, from).unwrap();
        assert(pattern_error(cells, history, piece, from, to).is_none() == piece_pattern(
            cells,
            history,
            piece,
            from,
            to,
        ));
    }
}

/// After an accepted move the king of the colour that moved is not
/// attacked: nobody can leave their own king in check.
pub proof fn lemma_accepted_move_keeps_king_safe(
    status: GameStatus,
    cells: Seq<Option<Piece>>,
    history: Seq<Move>,
    player: Color,
    from: Position,
    to: Position,
    promotion: Option<PieceType>,
)
    requires
        move_error(status, cells, history, player, from, to, promotion).is_none(),
    ensures
        !in_check(after_move(cells, from, to, promotion), player),
{
}

/// A pawn advances two squares only from its home rank, and only when the
/// square it crosses and the square it lands on are both empty.
pub proof fn lemma_pawn_double_step(
    cells: Seq<Option<Piece>>,
    history: Seq<Move>,
    color: Color,
    from: Position,
    to: Position,
)
    requires
        piece_at(cells, from) == Some(Piece { piece_type: PieceType::Pawn, color }),
        to.rank == from.rank + 2 * forward(color),
        is_legal(cells, history, color, from, to),
    ensures
        to.file == from.file,
        from.rank == pawn_home_rank(color),
        at(cells, from.file as int, from.rank + forward(color)).is_none(),
        piece_at(cells, to).is_none(),
{
}

/// A pawn never moves backwards or sideways: every legal pawn move ends one
/// or two ranks ahead.
pub proof fn lemma_pawn_only_advances(
    cells: Seq<Option<Piece>>,
    history: Seq<Move>,
    color: Color,
    from: Position,
    to: Position,
)
    requires
        piece_at(cells, from) == Some(Piece { piece_type: PieceType::Pawn, color }),
        is_legal(cells, history, color, from, to),
    ensures
        to.rank == from.rank + forward(color) || to.rank == from.rank + 2 * forward(color),
{
}

/// A king moves two files along a rank only by castling, and castling needs
/// each of these: the king starts on its home square; no move has started
/// from that square or from the rook's home square; a rook of the king's
/// colour stands on its home square; the squares between king and rook are
/// empty; and the king's square, the square it crosses and the square it
/// lands on are not attacked.
pub proof fn lemma_castling_requirements(
    cells: Seq<Option<Piece>>,
    history: Seq<Move>,
    color: Color,
    from: Position,
    to: Position,
)
    requires
        piece_at(cells, from) == Some(Piece { piece_type: PieceType::King, color }),
        is_castling_shape(from, to),
        is_legal(cells, history, color, from, to),
    ensures
        can_castle(cells, history, color, from, to),
        from.file == 4 && from.rank == king_home_rank(color),
        to.file == 6 || to.file == 2,
        !has_moved_from(history, from),
        !has_moved_from(
            history,
            square(castling_rook_file(to.file as int), king_home_rank(color)),
        ),
        at(cells, castling_rook_file(to.file as int), king_home_rank(color)) == Some(
            Piece { piece_type: PieceType::Rook, color },
        ),
        castling_lane_empty(cells, to.file as int, king_home_rank(color)),
        !is_attacked(cells, from, color.spec_opposite()),
        !is_attacked(
            cells,
            square(castling_crossed_file(to.file as int), king_home_rank(color)),
            color.spec_opposite(),
        ),
        !is_attacked(cells, to, color.spec_opposite()),
{
}

/// White castles kingside only when f1 and g1 are empty, no move has
/// started from e1 or h1, and e1, f1 and g1 are not attacked by Black.
pub proof fn lemma_white_kingside_castling(cells: Seq<Option<Piece>>, history: Seq<Move>)
    requires
        piece_at(cells, square(4, 0)) == Some(
            Piece { piece_type: PieceType::King, color: Color::White },
        ),
        is_legal(cells, history, Color::White, square(4, 0), square(6, 0)),
    ensures
        at(cells, 5, 0).is_none(),
        at(cells, 6, 0).is_none(),
        !has_moved_from(history, square(4, 0)),
        !has_moved_from(history, square(7, 0)),
        at(cells, 7, 0) == Some(Piece { piece_type: PieceType::Rook, color: Color::White }),
        !is_attacked(cells, square(4, 0), Color::Black),
        !is_attacked(cells, square(5, 0), Color::Black),
        !is_attacked(cells, square(6, 0), Color::Black),
{
    lemma_castling_requirements(cells, history, Color::White, square(4, 0), square(6, 0));
}

/// A legal castling puts the king on its destination and the rook on the
/// square that the king crossed, and empties the squares they left.
pub proof fn lemma_castling_takes_the_rook_along(
    cells: Seq<Option<Piece>>,
    history: Seq<Move>,
    color: Color,
    from: Position,
    to: Position,
)
    requires
        cells.len() == 64,
        piece_at(cells, from) == Some(Piece { piece_type: PieceType::King, color }),
        is_castling_shape(from, to),
        is_legal(cells, history, color, from, to),
    ensures
        ({
            let after = after_move(cells, from, to, None);
            let home = king_home_rank(color);
            &&& piece_at(after, to) == Some(Piece { piece_type: PieceType::King, color })
            &&& at(after, castling_crossed_file(to.file as int), home) == Some(
                Piece { piece_type: PieceType::Rook, color },
            )
            &&& piece_at(after, from).is_none()
            &&& at(after, castling_rook_file(to.file as int), home).is_none()
        }),
{
}

/// A pawn that legally moves to an empty square of a neighbouring file
/// captures in passing: the move before was an enemy pawn's advance of two
/// squares to the square beside it, and afterwards that square is empty,
/// the destination holds the capturing pawn, and the origin is empty.
pub proof fn lemma_en_passant_removes_the_passed_pawn(
    cells: Seq<Option<Piece>>,
    history: Seq<Move>,
    color: Color,
    from: Position,
    to: Position,
)
    requires
        cells.len() == 64,
        piece_at(cells, from) == Some(Piece { piece_type: PieceType::Pawn, color }),
        from.file != to.file,
        piece_at(cells, to).is_none(),
        is_legal(cells, history, color, from, to),
    ensures
        history.len() > 0,
        history.last().to == (Position { file: to.file, rank: from.rank }),
        piece_at(cells, history.last().to) == Some(
            Piece { piece_type: PieceType::Pawn, color: color.spec_opposite() },
        ),
        piece_at(after_move(cells, from, to, None), history.last().to).is_none(),
        piece_at(after_move(cells, from, to, None), to) == Some(
            Piece { piece_type: PieceType::Pawn, color },
        ),
        piece_at(after_move(cells, from, to, None), from).is_none(),
{
}

/// Whether two placements agree on every square but for the kind of pieces
/// of `color` that are no kings.
pub open spec fn same_but_for_own_kinds(
    a: Seq<Option<Piece>>,
    b: Seq<Option<Piece>>,
    color: Color,
) -> bool {
    forall|file: int, rank: int|
        #![trigger at(a, file, rank)]
        #![trigger at(b, file, rank)]
        at(a, file, rank) == at(b, file, rank) || {
            &&& at(a, file, rank).is_some()
            &&& at(b, file, rank).is_some()
            &&& at(a, file, rank).unwrap().color == color
            &&& at(b, file, rank).unwrap().color == color
            &&& at(a, file, rank).unwrap().piece_type != PieceType::King
            &&& at(b, file, rank).unwrap().piece_type != PieceType::King
        }
}

/// Whether a colour's king is attacked depends on where that colour's other
/// pieces stand, not on their kinds.
pub proof fn lemma_check_ignores_own_kinds(
    a: Seq<Option<Piece>>,
    b: Seq<Option<Piece>>,
    color: Color,
)
    requires
        same_but_for_own_kinds(a, b, color),
    ensures
        in_check(a, color) == in_check(b, color),
{
    let enemy = color.spec_opposite();
    assert forall|pos: Position| is_king_of(a, color, pos) == is_king_of(b, color, pos) by {
        assert(at(a, pos.file as int, pos.rank as int) == at(b, pos.file as int, pos.rank as int)
            || at(a, pos.file as int, pos.rank as int).unwrap().piece_type != PieceType::King);
    }
    assert forall|pos: Position| is_first_king(a, color, pos) == is_first_king(b, color, pos) by {}
    assert forall|from: Position, to: Position| path_clear(a, from, to) == path_clear(
        b,
        from,
        to,
    ) by {
        assert forall|k: int|
            on_path(a, from, to, k).is_none() == on_path(b, from, to, k).is_none() by {}
    }
    assert forall|from: Position, to: Position|
        attacks_from(a, enemy, from, to) == attacks_from(b, enemy, from, to) by {
        assert(at(a, from.file as int, from.rank as int) == at(b, from.file as int, from.rank as int)
            || at(a, from.file as int, from.rank as int).unwrap().color == color);
    }
}

/// Whether a move is legal does not depend on the piece that a pawn is
/// promoted to, as long as that is no king: the squares that
/// `legal_destinations` lists are those that `attempt_move` accepts with a
/// proper promotion choice.
pub proof fn lemma_legality_ignores_promotion_choice(
    cells: Seq<Option<Piece>>,
    history: Seq<Move>,
    color: Color,
    from: Position,
    to: Position,
    promotion: Option<PieceType>,
)
    requires
        cells.len() == 64,
        promotion != Some(PieceType::King),
    ensures
        is_legal_with(cells, history, color, from, to, promotion) == is_legal(
            cells,
            history,
            color,
            from,
            to,
        ),
{
    if from.spec_is_valid() && to.spec_is_valid() && holds_color(cells, from, color) {
        let piece = piece_at(cells, from).unwrap();
        let a = after_move(cells, from, to, promotion);
        let b = after_move(cells, from, to, None);
        if arriving_piece(piece, to, promotion) != piece {
            assert forall|file: int, rank: int|
                #![trigger at(a, file, rank)]
                #![trigger at(b, file, rank)]
                at(a, file, rank) == at(b, file, rank) || {
                    &&& at(a, file, rank).is_some()
                    &&& at(b, file, rank).is_some()
                    &&& at(a, file, rank).unwrap().color == color
                    &&& at(b, file, rank).unwrap().color == color
                    &&& at(a, file, rank).unwrap().piece_type != PieceType::King
                    &&& at(b, file, rank).unwrap().piece_type != PieceType::King
                } by {
                if on_board(file, rank) && square_index(file, rank) != scan_index(to) {
                    assert(a[square_index(file, rank)] == b[square_index(file, rank)]);
                }
            }
            lemma_check_ignores_own_kinds(a, b, color);
        }
    }
}

/// Whether a placement is the starting position.
pub open spec fn is_starting_position(cells: Seq<Option<Piece>>) -> bool {
    cells.len() == 64 && forall|file: int, rank: int| #[trigger]
        at(cells, file, rank) == initial_piece(file, rank)
}

/// While Black's pieces stand where they start, and White's king with them,
/// White is not in check, whatever White's other pieces do.
proof fn lemma_white_safe_at_start(cells: Seq<Option<Piece>>)
    requires
        cells.len() == 64,
        forall|file: int, rank: int|
            #![trigger at(cells, file, rank)]
            (at(cells, file, rank) == initial_piece(file, rank) || (rank < 6 && !(file == 4 && rank
                == 0) && !is_of_color(at(cells, file, rank), Color::Black) && at(cells, file, rank)
                != Some(Piece { piece_type: PieceType::King, color: Color::White }))),
    ensures
        !in_check(cells, Color::White),
{
}

/// A game begins in progress: in the starting position each colour has one
/// king, neither is in check, and White has a legal move.
pub proof fn lemma_new_game_is_in_progress(cells: Seq<Option<Piece>>)
    requires
        is_starting_position(cells),
    ensures
        at_most_one_king(cells, Color::White),
        at_most_one_king(cells, Color::Black),
        !in_check(cells, Color::White),
        !in_check(cells, Color::Black),
        has_legal_move(cells, Seq::<Move>::empty(), Color::White),
        status_for(cells, Seq::<Move>::empty(), Color::White) == GameStatus::InProgress,
{
    lemma_white_safe_at_start(cells);
    let from = square(1, 0);
    let to = square(0, 2);
    let after = after_move(cells, from, to, None);
    assert forall|file: int, rank: int|
        #![trigger at(after, file, rank)]
        (at(after, file, rank) == initial_piece(file, rank) || (rank < 6 && !(file == 4 && rank
            == 0) && !is_of_color(at(after, file, rank), Color::Black) && at(after, file, rank)
            != Some(Piece { piece_type: PieceType::King, color: Color::White }))) by {
        assert(at(cells, file, rank) == initial_piece(file, rank));
    }
    lemma_white_safe_at_start(after);
    assert(is_legal(cells, Seq::<Move>::empty(), Color::White, from, to));
}

/// Legal play never gives a colour a second king: if at most one square
/// holds a colour's king before an accepted move, the same holds after it,
/// for the mover and for the other side.
pub proof fn lemma_kings_never_multiply(
    status: GameStatus,
    cells: Seq<Option<Piece>>,
    history: Seq<Move>,
    player: Color,
    from: Position,
    to: Position,
    promotion: Option<PieceType>,
    color: Color,
)
    requires
        cells.len() == 64,
        move_error(status, cells, history, player, from, to, promotion).is_none(),
        at_most_one_king(cells, color),
    ensures
        at_most_one_king(after_move(cells, from, to, promotion), color),
{
    let after = after_move(cells, from, to, promotion);
    let piece = piece_at(cells, from).unwrap();
    lemma_accepted_iff_legal(status, cells, history, player, from, to, promotion);
    assert(arriving_piece(piece, to, promotion).piece_type == PieceType::King ==> piece.piece_type
        == PieceType::King);
    assert forall|p: Position|
        p.spec_is_valid() && is_king_of(after, color, p) implies (p != from && (p == to
        ==> is_king_of(cells, color, from)) && (p != to ==> is_king_of(cells, color, p))) by {}
}

} // verus!
