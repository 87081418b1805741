//! A game in progress: the board, whose turn it is, the moves so far and how
//! the game stands.

use vstd::prelude::*;
use crate::board::{at, Board, initial_piece};
use crate::laws::{lemma_kings_never_multiply, lemma_new_game_is_in_progress};
use crate::rules::{
    after_move, at_most_one_king, has_moved_from, in_check, is_legal, move_error, recorded_promotion, scan_index,
    status_for,
};
use crate::types::{Color, PieceType, Position};

verus! {

/// A move: where a piece leaves, where it arrives, and what a promoting
/// pawn becomes.
#[derive(Debug, Clone, Copy, PartialEq, Eq, Structural)]
pub struct Move {
    pub from: Position,
    pub to: Position,
    pub promotion: Option<PieceType>,
}

/// How a game stands.
#[derive(Debug, Clone, Copy, PartialEq, Eq, Structural)]
pub enum GameStatus {
    InProgress,
    Check { color: Color },
    Checkmate { winner: Color },
    Stalemate,
    Draw,
}

/// Why a move was refused.
#[derive(Debug, Clone, Copy, PartialEq, Eq, Structural)]
pub enum MoveError {
    NoPieceAtSource,
    WrongPlayer,
    OccupiedByOwnColor,
    InvalidPieceMovement,
    PathBlocked,
    MoveIntoCheck,
    InvalidCastling,
    InvalidPromotionChoice,
    GameAlreadyOver,
}

impl GameStatus {
    /// Whether the game has ended.
    pub open spec fn is_terminal(self) -> bool {
        self is Checkmate || self is Stalemate || self is Draw
    }

    /// Whether the game has ended: no move is accepted any more.
    pub fn is_over(&self) -> (over: bool)
        ensures
            over == self.is_terminal(),
    {
        match self {
            GameStatus::Checkmate { .. } => true,
            GameStatus::Stalemate => true,
            GameStatus::Draw => true,
            _ => false,
        }
    }
}

/// A game: the board, the colour to move, how the game stands, and every
/// move made so far, oldest first.
#[derive(Debug, Clone)]
pub struct GameState {
    pub board: Board,
    pub current_player: Color,
    pub status: GameStatus,
    pub move_history: Vec<Move>,
}

impl GameState {
    /// The move made last, if any was made.
    pub fn get_last_move(&self) -> (last: Option<Move>)
        ensures
            last == if self.move_history@.len() > 0 {
                Some(self.move_history@.last())
            } else {
                None
            },
    {
        let count = self.move_history.len();
        if count > 0 {
            Some(self.move_history[count - 1])
        } else {
            None
        }
    }

    /// Whether any move so far started from the given square. A king or a
    /// rook on its home square has moved exactly when this holds of that
    /// square.
    pub fn has_piece_moved(&self, pos: Position) -> (moved: bool)
        ensures
            moved == has_moved_from(self.move_history@, pos),
    {
        let mut index: usize = 0;
        while index < self.move_history.len()
            invariant
                index <= self.move_history@.len(),
                forall|i: int| 0 <= i < index ==> (#[trigger] self.move_history@[i]).from != pos,
            decreases self.move_history@.len() - index,
        {
            if self.move_history[index].from == pos {
                return true;
            }
            index = index + 1;
        }
        false
    }

    /// The colour to move after the given number of moves, White having
    /// started.
    pub open spec fn player_after(moves: nat) -> Color {
        if moves % 2 == 0 {
            Color::White
        } else {
            Color::Black
        }
    }

    /// Whether the colour to move is the one that the number of moves so
    /// far gives, White having started. It holds of a new game, and every
    /// accepted move keeps it.
    pub open spec fn turn_matches_history(&self) -> bool {
        self.current_player == Self::player_after(self.move_history@.len())
    }

    /// What holds of every game that began with `new` and went on by
    /// accepted moves: the colours have taken turns, White first; the
    /// standing is what the rules give for the colour to move; the colour
    /// that has just moved is not in check; and no colour has two kings.
    pub open spec fn well_formed(&self) -> bool {
        &&& self.turn_matches_history()
        &&& self.status == status_for(self.board@, self.move_history@, self.current_player)
        &&& !in_check(self.board@, self.current_player.spec_opposite())
        &&& at_most_one_king(self.board@, Color::White)
        &&& at_most_one_king(self.board@, Color::Black)
    }

    /// Starts a game: the pieces on their home squares, White to move, no
    /// move made, the game in progress, which is how the rules judge that
    /// position.
    pub fn new() -> (game: GameState)
        ensures
            game.board@.len() == 64,
            forall|file: int, rank: int| #[trigger]
                at(game.board@, file, rank) == initial_piece(file, rank),
            game.current_player == Color::White,
            game.status == GameStatus::InProgress,
            game.move_history@ == Seq::<Move>::empty(),
            game.well_formed(),
    {
        let game = GameState {
            board: Board::new_game(),
            current_player: Color::White,
            status: GameStatus::InProgress,
            move_history: Vec::new(),
        };
        proof {
            lemma_new_game_is_in_progress(game.board@);
        }
        game
    }

    /// How the game stands.
    pub fn status(&self) -> (status: GameStatus)
        ensures
            status == self.status,
    {
        self.status
    }

    /// The squares to which the colour to move may legally move the piece
    /// on `from`, in reading order and without repetition. A square that
    /// holds no piece of that colour has none.
    pub fn legal_destinations(&self, from: Position) -> (squares: Vec<Position>)
        ensures
            forall|i: int|
                0 <= i < squares@.len() ==> is_legal(
                    self.board@,
                    self.move_history@,
                    self.current_player,
                    from,
                    #[trigger] squares@[i],
                ),
            forall|to: Position| #[trigger]
                is_legal(self.board@, self.move_history@, self.current_player, from, to)
                    ==> squares@.contains(to),
            forall|i: int, j: int|
                0 <= i < j < squares@.len() ==> scan_index(#[trigger] squares@[i]) < scan_index(
                    #[trigger] squares@[j],
                ),
    {
        self.board.legal_destinations(from, self.current_player, self)
    }

    /// Recomputes how the game stands for the colour to move: check,
    /// checkmate, stalemate or in progress.
    pub fn update_game_status(&mut self)
        ensures
            final(self).status == status_for(
                old(self).board@,
                old(self).move_history@,
                old(self).current_player,
            ),
            final(self).board == old(self).board,
            final(self).current_player == old(self).current_player,
            final(self).move_history == old(self).move_history,
    {
        let status = self.board.status_for(self.current_player, self);
        self.status = status;
    }

    /// Tries to move the piece on `from` to `to` for the colour to move; a
    /// pawn that reaches the far rank becomes `promotion`. A refused move
    /// leaves the game exactly as it was and names the reason. An accepted
    /// move changes the board, castling and capturing in passing included,
    /// is added to the moves so far, passes the turn, and the new standing
    /// of the game is computed for the colour now to move and returned.
    pub fn attempt_move(&mut self, from: Position, to: Position, promotion: Option<PieceType>) -> (outcome: Result<GameStatus, MoveError>)
        ensures
            match move_error(
                old(self).status,
                old(self).board@,
                old(self).move_history@,
                old(self).current_player,
                from,
                to,
                promotion,
            ) {
                Some(error) => {
                    &&& outcome == Err::<GameStatus, MoveError>(error)
                    &&& final(self).board@ == old(self).board@
                    &&& final(self).current_player == old(self).current_player
                    &&& final(self).status == old(self).status
                    &&& final(self).move_history@ == old(self).move_history@
                },
                None => {
                    &&& outcome == Ok::<GameStatus, MoveError>(final(self).status)
                    &&& final(self).board@ == after_move(old(self).board@, from, to, promotion)
                    &&& final(self).current_player == old(self).current_player.spec_opposite()
                    &&& final(self).move_history@ == old(self).move_history@.push(
                        Move {
                            from,
                            to,
                            promotion: recorded_promotion(old(self).board@, from, to, promotion),
                        },
                    )
                    &&& final(self).status == status_for(
                        final(self).board@,
                        final(self).move_history@,
                        final(self).current_player,
                    )
                    &&& !in_check(final(self).board@, old(self).current_player)
                },
            },
            old(self).well_formed() ==> final(self).well_formed(),
    {
        if self.status.is_over() {
            return Err(MoveError::GameAlreadyOver);
        }
        let player = self.current_player;
        let piece = match self.board.get_piece(from) {
            Some(piece) => piece,
            None => {
                return Err(MoveError::NoPieceAtSource);
            },
        };
        if piece.color != player {
            return Err(MoveError::WrongPlayer);
        }
        if !to.is_valid() {
            return Err(MoveError::InvalidPieceMovement);
        }
        match self.board.get_piece(to) {
            Some(target) => {
                if target.color == player {
                    return Err(MoveError::OccupiedByOwnColor);
                }
            },
            None => {},
        }
        match self.board.check_piece_move(piece, from, to, self) {
            Some(error) => {
                return Err(error);
            },
            None => {},
        }
        let far: u8 = match piece.color {
            Color::White => 7,
            Color::Black => 0,
        };
        let promoting = piece.piece_type == PieceType::Pawn && to.rank == far;
        let refused = match promotion {
            Some(PieceType::Pawn) => true,
            Some(PieceType::King) => true,
            Some(_) => false,
            None => promoting,
        };
        if refused {
            return Err(MoveError::InvalidPromotionChoice);
        }
        let mut next = self.board;
        next.apply_move(from, to, promotion);
        if next.is_in_check(player) {
            return Err(MoveError::MoveIntoCheck);
        }
        let recorded = if promoting {
            promotion
        } else {
            None
        };
        proof {
            if at_most_one_king(self.board@, Color::White) {
                lemma_kings_never_multiply(
                    self.status,
                    self.board@,
                    self.move_history@,
                    player,
                    from,
                    to,
                    promotion,
                    Color::White,
                );
            }
            if at_most_one_king(self.board@, Color::Black) {
                lemma_kings_never_multiply(
                    self.status,
                    self.board@,
                    self.move_history@,
                    player,
                    from,
                    to,
                    promotion,
                    Color::Black,
                );
            }
        }
        self.board = next;
        self.move_history.push(Move { from, to, promotion: recorded });
        self.current_player = player.opposite();
        self.update_game_status();
        Ok(self.status)
    }

    /// Tries to move the piece on `from` to `to` for the colour to move,
    /// without a promotion choice, and says whether the move was made. A
    /// refused move leaves the game as it was.
    pub fn make_move(&mut self, from: Position, to: Position) -> (made: bool)
        ensures
            made == move_error(
                old(self).status,
                old(self).board@,
                old(self).move_history@,
                old(self).current_player,
                from,
                to,
                None,
            ).is_none(),
            made ==> {
                &&& final(self).board@ == after_move(old(self).board@, from, to, None)
                &&& final(self).current_player == old(self).current_player.spec_opposite()
                &&& final(self).move_history@ == old(self).move_history@.push(
                    Move { from, to, promotion: None },
                )
                &&& final(self).status == status_for(
                    final(self).board@,
                    final(self).move_history@,
                    final(self).current_player,
                )
            },
            !made ==> {
                &&& final(self).board@ == old(self).board@
                &&& final(self).current_player == old(self).current_player
                &&& final(self).status == old(self).status
                &&& final(self).move_history@ == old(self).move_history@
            },
            old(self).well_formed() ==> final(self).well_formed(),
    {
        match self.attempt_move(from, to, None) {
            Ok(_) => true,
            Err(_) => false,
        }
    }
}

} // verus!
