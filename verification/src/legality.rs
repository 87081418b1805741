//! Move legality on a board: the movement of each kind of piece, attack
//! detection, the effect of a move, and the full test that a move is legal.

use vstd::prelude::*;
use crate::board::{at, Board};
use crate::rules::{
    abs_diff, after_move, attacks_from, can_castle, en_passant_allowed, forward, has_legal_move,
    in_check, is_attacked, is_castling_shape, is_diagonal, is_first_king, is_king_of,
    is_king_step, is_knight_leap, is_legal, is_legal_with, is_straight, move_index, on_path,
    path_clear, pattern_error, pawn_pattern, piece_at, piece_pattern, scan_index, span,
    status_for, stepped,
};
use crate::state::{GameState, GameStatus, MoveError};
use crate::types::{Color, Piece, PieceType, Position};

verus! {

/// The square with the given place in reading order.
fn square_at(index: u8) -> (pos: Position)
    requires
        index < 64,
    ensures
        pos.spec_is_valid(),
        scan_index(pos) == index,
        forall|other: Position|
            other.spec_is_valid() && scan_index(other) == index ==> other == pos,
{
    Position { file: index % 8, rank: index / 8 }
}

impl Board {
    /// What stands on the square with the given coordinates; nothing outside
    /// the board.
    fn piece_on(&self, file: i16, rank: i16) -> (piece: Option<Piece>)
        ensures
            piece == at(self@, file as int, rank as int),
    {
        if 0 <= file && file < 8 && 0 <= rank && rank < 8 {
            let index: usize = (rank * 8 + file) as usize;
            self.cells[index]
        } else {
            None
        }
    }

    /// Whether two colours are the same.
    pub fn is_same_color(&self, color1: Color, color2: Color) -> (same: bool)
        ensures
            same == (color1 == color2),
    {
        color1 == color2
    }

    /// The number of ranks between two squares.
    pub fn rank_distance(&self, from: Position, to: Position) -> (distance: u8)
        ensures
            distance == abs_diff(from.rank as int, to.rank as int),
    {
        if from.rank >= to.rank {
            from.rank - to.rank
        } else {
            to.rank - from.rank
        }
    }

    /// The number of files between two squares.
    pub fn file_distance(&self, from: Position, to: Position) -> (distance: u8)
        ensures
            distance == abs_diff(from.file as int, to.file as int),
    {
        if from.file >= to.file {
            from.file - to.file
        } else {
            to.file - from.file
        }
    }

    /// Whether the move runs along a diagonal, over at least one square.
    pub fn is_diagonal_move(&self, from: Position, to: Position) -> (diagonal: bool)
        ensures
            diagonal == is_diagonal(from, to),
    {
        self.rank_distance(from, to) == self.file_distance(from, to) && from.file != to.file
    }

    /// Whether the move runs along a rank or a file, over at least one
    /// square.
    pub fn is_straight_move(&self, from: Position, to: Position) -> (straight: bool)
        ensures
            straight == is_straight(from, to),
    {
        (from.file == to.file) != (from.rank == to.rank)
    }

    /// Whether every square strictly between the two is empty. The squares
    /// are those met when walking from `from`, one step at a time, towards
    /// the file and the rank of `to`.
    pub fn is_path_clear(&self, from: Position, to: Position) -> (clear: bool)
        ensures
            clear == path_clear(self@, from, to),
    {
        let file_distance = self.file_distance(from, to);
        let rank_distance = self.rank_distance(from, to);
        let steps: u8 = if file_distance >= rank_distance {
            file_distance
        } else {
            rank_distance
        };
        let dx: i16 = if to.file > from.file {
            1
        } else if to.file < from.file {
            -1
        } else {
            0
        };
        let dy: i16 = if to.rank > from.rank {
            1
        } else if to.rank < from.rank {
            -1
        } else {
            0
        };
        let mut file: i16 = from.file as i16 + dx;
        let mut rank: i16 = from.rank as i16 + dy;
        let mut k: u8 = 1;
        while k < steps
            invariant
                1 <= k,
                steps == span(from, to),
                dx == stepped(0, 1, to.file - from.file),
                dy == stepped(0, 1, to.rank - from.rank),
                file == stepped(from.file as int, k as int, to.file - from.file),
                rank == stepped(from.rank as int, k as int, to.rank - from.rank),
                forall|j: int| 0 < j < k ==> (#[trigger] on_path(self@, from, to, j)).is_none(),
            decreases steps - k,
        {
            if self.piece_on(file, rank).is_some() {
                assert(on_path(self@, from, to, k as int).is_some());
                return false;
            }
            file = file + dx;
            rank = rank + dy;
            k = k + 1;
        }
        true
    }

    /// Whether the move is a knight's leap.
    pub fn is_valid_knight_move(&self, from: Position, to: Position) -> (valid: bool)
        ensures
            valid == is_knight_leap(from, to),
    {
        let rank_diff = self.rank_distance(from, to);
        let file_diff = self.file_distance(from, to);
        (rank_diff == 2 && file_diff == 1) || (rank_diff == 1 && file_diff == 2)
    }

    /// Whether a bishop moves this way: along a diagonal, nothing between.
    pub fn is_valid_bishop_move(&self, from: Position, to: Position) -> (valid: bool)
        ensures
            valid == (is_diagonal(from, to) && path_clear(self@, from, to)),
    {
        if !self.is_diagonal_move(from, to) {
            return false;
        }
        self.is_path_clear(from, to)
    }

    /// Whether a rook moves this way: along a rank or a file, nothing
    /// between.
    pub fn is_valid_rook_move(&self, from: Position, to: Position) -> (valid: bool)
        ensures
            valid == (is_straight(from, to) && path_clear(self@, from, to)),
    {
        if !self.is_straight_move(from, to) {
            return false;
        }
        self.is_path_clear(from, to)
    }

    /// Whether a queen moves this way: as a bishop or as a rook.
    pub fn is_valid_queen_move(&self, from: Position, to: Position) -> (valid: bool)
        ensures
            valid == ((is_diagonal(from, to) || is_straight(from, to)) && path_clear(
                self@,
                from,
                to,
            )),
    {
        if !self.is_diagonal_move(from, to) && !self.is_straight_move(from, to) {
            return false;
        }
        self.is_path_clear(from, to)
    }

    /// Whether the square `to` lies one rank ahead of `from` for a pawn of
    /// the given colour.
    fn is_one_rank_ahead(from: Position, to: Position, color: Color) -> (ahead: bool)
        ensures
            ahead == (to.rank == from.rank + forward(color)),
    {
        match color {
            Color::White => from.rank < 255 && to.rank == from.rank + 1,
            Color::Black => from.rank > 0 && to.rank == from.rank - 1,
        }
    }

    /// Whether a pawn of `color` may capture in passing from `from` to `to`.
    pub fn is_en_passant(
        &self,
        from: Position,
        to: Position,
        color: Color,
        game_state: &GameState,
    ) -> (allowed: bool)
        ensures
            allowed == en_passant_allowed(self@, game_state.move_history@, color, from, to),
    {
        match game_state.get_last_move() {
            None => false,
            Some(last) => {
                if self.get_piece(to).is_some() {
                    return false;
                }
                let beside = match self.get_piece(last.to) {
                    Some(piece) => piece.piece_type == PieceType::Pawn && piece.color
                        == color.opposite(),
                    None => false,
                };
                beside && last.to.file == to.file && last.to.rank == from.rank && last.from.file
                    == last.to.file && self.rank_distance(last.from, last.to) == 2
            },
        }
    }

    /// Whether a pawn of `color` moves this way: one square ahead onto an
    /// empty square, two squares ahead from its home rank over empty
    /// squares, or one square diagonally ahead onto a piece or in passing.
    pub fn is_valid_pawn_move(
        &self,
        from: Position,
        to: Position,
        color: Color,
        game_state: &GameState,
    ) -> (valid: bool)
        ensures
            valid == pawn_pattern(self@, game_state.move_history@, color, from, to),
    {
        let file_diff = self.file_distance(from, to);
        if file_diff == 0 {
            if Self::is_one_rank_ahead(from, to, color) {
                return self.get_piece(to).is_none();
            }
            let (home, middle, landing): (u8, u8, u8) = match color {
                Color::White => (1, 2, 3),
                Color::Black => (6, 5, 4),
            };
            if from.rank == home && to.rank == landing {
                let between = self.piece_on(from.file as i16, middle as i16);
                return between.is_none() && self.get_piece(to).is_none();
            }
            false
        } else if file_diff == 1 && Self::is_one_rank_ahead(from, to, color) {
            self.get_piece(to).is_some() || self.is_en_passant(from, to, color, game_state)
        } else {
            false
        }
    }

    /// Whether the king of `color` may castle from `from` to `to`.
    pub fn is_castling_allowed(
        &self,
        from: Position,
        to: Position,
        color: Color,
        game_state: &GameState,
    ) -> (allowed: bool)
        ensures
            allowed == can_castle(self@, game_state.move_history@, color, from, to),
    {
        let home: u8 = match color {
            Color::White => 0,
            Color::Black => 7,
        };
        if from.file != 4 || from.rank != home || to.rank != home {
            return false;
        }
        if to.file != 6 && to.file != 2 {
            return false;
        }
        let kingside = to.file == 6;
        let rook_file: u8 = if kingside {
            7
        } else {
            0
        };
        let crossed_file: u8 = if kingside {
            5
        } else {
            3
        };
        let rook_home = Position { file: rook_file, rank: home };
        let crossed = Position { file: crossed_file, rank: home };
        if game_state.has_piece_moved(from) || game_state.has_piece_moved(rook_home) {
            return false;
        }
        match self.get_piece(rook_home) {
            Some(piece) => {
                if piece.piece_type != PieceType::Rook || piece.color != color {
                    return false;
                }
            },
            None => {
                return false;
            },
        }
        let lane_empty = if kingside {
            self.get_piece(Position { file: 5, rank: home }).is_none() && self.get_piece(
                Position { file: 6, rank: home },
            ).is_none()
        } else {
            self.get_piece(Position { file: 1, rank: home }).is_none() && self.get_piece(
                Position { file: 2, rank: home },
            ).is_none() && self.get_piece(Position { file: 3, rank: home }).is_none()
        };
        if !lane_empty {
            return false;
        }
        let enemy = color.opposite();
        !self.is_square_attacked(from, enemy) && !self.is_square_attacked(crossed, enemy)
            && !self.is_square_attacked(to, enemy)
    }

    /// Whether the king of `color` moves this way: one square in any
    /// direction, or by castling.
    pub fn is_valid_king_move(
        &self,
        from: Position,
        to: Position,
        color: Color,
        game_state: &GameState,
    ) -> (valid: bool)
        ensures
            valid == (is_king_step(from, to) || (is_castling_shape(from, to) && can_castle(
                self@,
                game_state.move_history@,
                color,
                from,
                to,
            ))),
    {
        let rank_diff = self.rank_distance(from, to);
        let file_diff = self.file_distance(from, to);
        if rank_diff <= 1 && file_diff <= 1 {
            return true;
        }
        if rank_diff == 0 && file_diff == 2 {
            return self.is_castling_allowed(from, to, color, game_state);
        }
        false
    }

    /// Whether `from` holds a piece of colour `by_color` that reaches
    /// `target` by its own way of moving.
    pub fn attacks(&self, from: Position, target: Position, by_color: Color) -> (reached: bool)
        ensures
            reached == attacks_from(self@, by_color, from, target),
    {
        if !from.is_valid() {
            return false;
        }
        match self.get_piece(from) {
            None => false,
            Some(piece) => {
                if piece.color != by_color {
                    return false;
                }
                match piece.piece_type {
                    PieceType::Pawn => Self::is_one_rank_ahead(from, target, piece.color)
                        && self.file_distance(from, target) == 1,
                    PieceType::Knight => self.is_valid_knight_move(from, target),
                    PieceType::Bishop => self.is_valid_bishop_move(from, target),
                    PieceType::Rook => self.is_valid_rook_move(from, target),
                    PieceType::Queen => self.is_valid_queen_move(from, target),
                    PieceType::King => self.rank_distance(from, target) <= 1 && self.file_distance(
                        from,
                        target,
                    ) <= 1,
                }
            },
        }
    }

    /// Whether some piece of colour `by_color` reaches the square `pos`.
    /// Only the movement of the pieces counts, not whether the attacker's
    /// own king would be exposed. A square outside the board is never
    /// attacked.
    pub fn is_square_attacked(&self, pos: Position, by_color: Color) -> (attacked: bool)
        ensures
            attacked == is_attacked(self@, pos, by_color),
    {
        if !pos.is_valid() {
            return false;
        }
        let mut index: u8 = 0;
        while index < 64
            invariant
                index <= 64,
                pos.spec_is_valid(),
                forall|from: Position|
                    from.spec_is_valid() && scan_index(from) < index ==> !#[trigger] attacks_from(
                        self@,
                        by_color,
                        from,
                        pos,
                    ),
            decreases 64 - index,
        {
            let from = square_at(index);
            if self.attacks(from, pos, by_color) {
                return true;
            }
            index = index + 1;
        }
        false
    }

    /// Finds the king of a colour: the first one met when the board is read
    /// rank by rank, or nothing when the colour has no king.
    pub fn find_king(&self, color: Color) -> (king: Option<Position>)
        ensures
            match king {
                Some(pos) => is_first_king(self@, color, pos),
                None => forall|pos: Position|
                    pos.spec_is_valid() ==> !#[trigger] is_king_of(self@, color, pos),
            },
    {
        let mut index: u8 = 0;
        while index < 64
            invariant
                index <= 64,
                forall|pos: Position|
                    pos.spec_is_valid() && scan_index(pos) < index ==> !#[trigger] is_king_of(
                        self@,
                        color,
                        pos,
                    ),
            decreases 64 - index,
        {
            let pos = square_at(index);
            match self.get_piece(pos) {
                Some(piece) => {
                    if piece.piece_type == PieceType::King && piece.color == color {
                        return Some(pos);
                    }
                },
                None => {},
            }
            index = index + 1;
        }
        None
    }

    /// Whether the king of a colour stands attacked by the other colour.
    pub fn is_in_check(&self, color: Color) -> (check: bool)
        ensures
            check == in_check(self@, color),
    {
        match self.find_king(color) {
            Some(king) => self.is_square_attacked(king, color.opposite()),
            None => false,
        }
    }

    /// Carries a move out on the board, whatever the rules say of it: the
    /// piece on `from` goes to `to`, a promoting pawn becomes the chosen
    /// piece, a castling king takes its rook along, and a pawn that captures
    /// in passing removes the pawn beside it. Nothing happens, and `false`
    /// is returned, when a square lies outside the board or `from` is empty.
    pub fn apply_move(&mut self, from: Position, to: Position, promotion: Option<PieceType>) -> (applied: bool)
        ensures
            applied == (from.spec_is_valid() && to.spec_is_valid() && piece_at(old(self)@, from).is_some()),
            applied ==> final(self)@ == after_move(old(self)@, from, to, promotion),
            !applied ==> final(self)@ == old(self)@,
    {
        if !from.is_valid() || !to.is_valid() {
            return false;
        }
        let piece = match self.get_piece(from) {
            Some(piece) => piece,
            None => {
                return false;
            },
        };
        let castling = piece.piece_type == PieceType::King && from.rank == to.rank
            && self.file_distance(from, to) == 2;
        let passing = piece.piece_type == PieceType::Pawn && from.file != to.file && self.get_piece(
            to,
        ).is_none();
        let far: u8 = match piece.color {
            Color::White => 7,
            Color::Black => 0,
        };
        let arriving = match promotion {
            Some(kind) => {
                if piece.piece_type == PieceType::Pawn && to.rank == far {
                    Piece { piece_type: kind, color: piece.color }
                } else {
                    piece
                }
            },
            None => piece,
        };
        let kingside = to.file > from.file;
        let rook_from = Position { file: if kingside { 7 } else { 0 }, rank: from.rank };
        let rook_to = Position { file: if kingside { 5 } else { 3 }, rank: from.rank };
        let rook = self.get_piece(rook_from);
        self.set_piece(from, None);
        self.set_piece(to, Some(arriving));
        if castling {
            self.set_piece(rook_from, None);
            self.set_piece(rook_to, rook);
        } else if passing {
            self.set_piece(Position { file: to.file, rank: from.rank }, None);
        }
        true
    }

    /// Whether the kind of `piece` moves from `from` to `to`.
    pub fn is_valid_piece_move(
        &self,
        piece: Piece,
        from: Position,
        to: Position,
        game_state: &GameState,
    ) -> (valid: bool)
        ensures
            valid == piece_pattern(self@, game_state.move_history@, piece, from, to),
    {
        match piece.piece_type {
            PieceType::Pawn => self.is_valid_pawn_move(from, to, piece.color, game_state),
            PieceType::Knight => self.is_valid_knight_move(from, to),
            PieceType::Bishop => self.is_valid_bishop_move(from, to),
            PieceType::Rook => self.is_valid_rook_move(from, to),
            PieceType::Queen => self.is_valid_queen_move(from, to),
            PieceType::King => self.is_valid_king_move(from, to, piece.color, game_state),
        }
    }

    /// Whether `current_player` may move the piece on `from` to `to`, a
    /// promoting pawn becoming `promotion`.
    pub fn is_valid_move_with(
        &self,
        from: Position,
        to: Position,
        current_player: Color,
        game_state: &GameState,
        promotion: Option<PieceType>,
    ) -> (legal: bool)
        ensures
            legal == is_legal_with(
                self@,
                game_state.move_history@,
                current_player,
                from,
                to,
                promotion,
            ),
    {
        if !from.is_valid() || !to.is_valid() {
            return false;
        }
        let piece = match self.get_piece(from) {
            Some(piece) => piece,
            None => {
                return false;
            },
        };
        if piece.color != current_player {
            return false;
        }
        match self.get_piece(to) {
            Some(target) => {
                if self.is_same_color(piece.color, target.color) {
                    return false;
                }
            },
            None => {},
        }
        if !self.is_valid_piece_move(piece, from, to, game_state) {
            return false;
        }
        let mut scratch = *self;
        scratch.apply_move(from, to, promotion);
        !scratch.is_in_check(current_player)
    }

    /// Whether `current_player` may move the piece on `from` to `to`: both
    /// squares lie on the board, `from` holds a piece of that colour, `to`
    /// holds none of that colour, the piece's kind moves that way (castling
    /// and capturing in passing read `game_state` for the moves so far), and
    /// the move does not leave the mover's king attacked.
    pub fn is_valid_move(
        &self,
        from: Position,
        to: Position,
        current_player: Color,
        game_state: &GameState,
    ) -> (legal: bool)
        ensures
            legal == is_legal(self@, game_state.move_history@, current_player, from, to),
    {
        self.is_valid_move_with(from, to, current_player, game_state, None)
    }

    /// Why the kind of `piece` does not move from `from` to `to`, or nothing
    /// when it does.
    pub fn check_piece_move(
        &self,
        piece: Piece,
        from: Position,
        to: Position,
        game_state: &GameState,
    ) -> (error: Option<MoveError>)
        ensures
            error == pattern_error(self@, game_state.move_history@, piece, from, to),
            error.is_none() == piece_pattern(self@, game_state.move_history@, piece, from, to),
    {
        match piece.piece_type {
            PieceType::Pawn => {
                if self.is_valid_pawn_move(from, to, piece.color, game_state) {
                    None
                } else {
                    Some(MoveError::InvalidPieceMovement)
                }
            },
            PieceType::Knight => {
                if self.is_valid_knight_move(from, to) {
                    None
                } else {
                    Some(MoveError::InvalidPieceMovement)
                }
            },
            PieceType::Bishop => {
                if !self.is_diagonal_move(from, to) {
                    Some(MoveError::InvalidPieceMovement)
                } else if !self.is_path_clear(from, to) {
                    Some(MoveError::PathBlocked)
                } else {
                    None
                }
            },
            PieceType::Rook => {
                if !self.is_straight_move(from, to) {
                    Some(MoveError::InvalidPieceMovement)
                } else if !self.is_path_clear(from, to) {
                    Some(MoveError::PathBlocked)
                } else {
                    None
                }
            },
            PieceType::Queen => {
                if !self.is_diagonal_move(from, to) && !self.is_straight_move(from, to) {
                    Some(MoveError::InvalidPieceMovement)
                } else if !self.is_path_clear(from, to) {
                    Some(MoveError::PathBlocked)
                } else {
                    None
                }
            },
            PieceType::King => {
                if self.rank_distance(from, to) <= 1 && self.file_distance(from, to) <= 1 {
                    None
                } else if !(from.rank == to.rank && self.file_distance(from, to) == 2) {
                    Some(MoveError::InvalidPieceMovement)
                } else if !self.is_castling_allowed(from, to, piece.color, game_state) {
                    Some(MoveError::InvalidCastling)
                } else {
                    None
                }
            },
        }
    }

    /// Whether `color` has a legal move from the square `from`.
    pub fn has_legal_move_from(&self, from: Position, color: Color, game_state: &GameState) -> (found: bool)
        ensures
            found == exists|to: Position| #[trigger]
                is_legal(self@, game_state.move_history@, color, from, to),
    {
        let mut index: u8 = 0;
        while index < 64
            invariant
                index <= 64,
                forall|to: Position|
                    to.spec_is_valid() && scan_index(to) < index ==> !#[trigger] is_legal(
                        self@,
                        game_state.move_history@,
                        color,
                        from,
                        to,
                    ),
            decreases 64 - index,
        {
            let to = square_at(index);
            if self.is_valid_move(from, to, color, game_state) {
                return true;
            }
            index = index + 1;
        }
        false
    }

    /// Whether `color` has any legal move.
    pub fn has_legal_moves(&self, color: Color, game_state: &GameState) -> (found: bool)
        ensures
            found == has_legal_move(self@, game_state.move_history@, color),
    {
        let mut index: u8 = 0;
        while index < 64
            invariant
                index <= 64,
                forall|from: Position, to: Position|
                    from.spec_is_valid() && scan_index(from) < index ==> !#[trigger] is_legal(
                        self@,
                        game_state.move_history@,
                        color,
                        from,
                        to,
                    ),
            decreases 64 - index,
        {
            let from = square_at(index);
            if self.has_legal_move_from(from, color, game_state) {
                return true;
            }
            index = index + 1;
        }
        false
    }

    /// Whether `color` is checkmated: its king is attacked and it has no
    /// legal move.
    pub fn is_checkmate(&self, color: Color, game_state: &GameState) -> (mate: bool)
        ensures
            mate == (in_check(self@, color) && !has_legal_move(
                self@,
                game_state.move_history@,
                color,
            )),
    {
        if !self.is_in_check(color) {
            return false;
        }
        !self.has_legal_moves(color, game_state)
    }

    /// Whether `color` is stalemated: its king is not attacked, yet it has
    /// no legal move.
    pub fn is_stalemate(&self, color: Color, game_state: &GameState) -> (stalemate: bool)
        ensures
            stalemate == (!in_check(self@, color) && !has_legal_move(
                self@,
                game_state.move_history@,
                color,
            )),
    {
        if self.is_in_check(color) {
            return false;
        }
        !self.has_legal_moves(color, game_state)
    }

    /// How the game stands for `color`, which is about to move.
    pub fn status_for(&self, color: Color, game_state: &GameState) -> (status: GameStatus)
        ensures
            status == status_for(self@, game_state.move_history@, color),
    {
        let check = self.is_in_check(color);
        let can_move = self.has_legal_moves(color, game_state);
        if check {
            if can_move {
                GameStatus::Check { color }
            } else {
                GameStatus::Checkmate { winner: color.opposite() }
            }
        } else if can_move {
            GameStatus::InProgress
        } else {
            GameStatus::Stalemate
        }
    }

    /// The squares to which `color` may legally move the piece on `from`,
    /// in reading order: rank by rank from White's home rank, each rank
    /// from the a-file. No square is listed twice.
    pub fn legal_destinations(&self, from: Position, color: Color, game_state: &GameState) -> (squares: Vec<Position>)
        ensures
            forall|i: int|
                0 <= i < squares@.len() ==> is_legal(
                    self@,
                    game_state.move_history@,
                    color,
                    from,
                    #[trigger] squares@[i],
                ),
            forall|to: Position| #[trigger]
                is_legal(self@, game_state.move_history@, color, from, to) ==> squares@.contains(
                    to,
                ),
            forall|i: int, j: int|
                0 <= i < j < squares@.len() ==> scan_index(#[trigger] squares@[i]) < scan_index(
                    #[trigger] squares@[j],
                ),
    {
        let mut squares: Vec<Position> = Vec::new();
        let mut index: u8 = 0;
        while index < 64
            invariant
                index <= 64,
                forall|i: int|
                    0 <= i < squares@.len() ==> is_legal(
                        self@,
                        game_state.move_history@,
                        color,
                        from,
                        #[trigger] squares@[i],
                    ) && scan_index(squares@[i]) < index,
                forall|to: Position|
                    to.spec_is_valid() && scan_index(to) < index && #[trigger] is_legal(
                        self@,
                        game_state.move_history@,
                        color,
                        from,
                        to,
                    ) ==> squares@.contains(to),
                forall|i: int, j: int|
                    0 <= i < j < squares@.len() ==> scan_index(#[trigger] squares@[i])
                        < scan_index(#[trigger] squares@[j]),
            decreases 64 - index,
        {
            let to = square_at(index);
            let ghost before = squares@;
            if self.is_valid_move(from, to, color, game_state) {
                squares.push(to);
            }
            assert forall|other: Position|
                other.spec_is_valid() && scan_index(other) < index + 1 && #[trigger] is_legal(
                    self@,
                    game_state.move_history@,
                    color,
                    from,
                    other,
                ) implies squares@.contains(other) by {
                if scan_index(other) < index {
                    let i = choose|i: int| 0 <= i < before.len() && before[i] == other;
                    assert(squares@[i] == other);
                } else {
                    assert(squares@[before.len() as int] == to);
                }
            }
            index = index + 1;
        }
        squares
    }

    /// Every legal move of `color`, each as its origin and its destination,
    /// read by origin and then by destination. No move is listed twice.
    pub fn generate_moves(&self, color: Color, game_state: &GameState) -> (moves: Vec<(Position, Position)>)
        ensures
            forall|i: int|
                0 <= i < moves@.len() ==> is_legal(
                    self@,
                    game_state.move_history@,
                    color,
                    (#[trigger] moves@[i]).0,
                    moves@[i].1,
                ),
            forall|from: Position, to: Position| #[trigger]
                is_legal(self@, game_state.move_history@, color, from, to) ==> moves@.contains(
                    (from, to),
                ),
            forall|i: int, j: int|
                0 <= i < j < moves@.len() ==> move_index(
                    (#[trigger] moves@[i]).0,
                    moves@[i].1,
                ) < move_index((#[trigger] moves@[j]).0, moves@[j].1),
    {
        let mut moves: Vec<(Position, Position)> = Vec::new();
        let mut index: u16 = 0;
        while index < 4096
            invariant
                index <= 4096,
                forall|i: int|
                    0 <= i < moves@.len() ==> is_legal(
                        self@,
                        game_state.move_history@,
                        color,
                        (#[trigger] moves@[i]).0,
                        moves@[i].1,
                    ) && move_index(moves@[i].0, moves@[i].1) < index,
                forall|from: Position, to: Position|
                    from.spec_is_valid() && to.spec_is_valid() && move_index(from, to) < index
                        && #[trigger] is_legal(self@, game_state.move_history@, color, from, to)
                        ==> moves@.contains((from, to)),
                forall|i: int, j: int|
                    0 <= i < j < moves@.len() ==> move_index(
                        (#[trigger] moves@[i]).0,
                        moves@[i].1,
                    ) < move_index((#[trigger] moves@[j]).0, moves@[j].1),
            decreases 4096 - index,
        {
            let from = square_at((index / 64) as u8);
            let to = square_at((index % 64) as u8);
            let ghost before = moves@;
            if self.is_valid_move(from, to, color, game_state) {
                moves.push((from, to));
            }
            assert forall|a: Position, b: Position|
                a.spec_is_valid() && b.spec_is_valid() && move_index(a, b) < index + 1
                    && #[trigger] is_legal(
                    self@,
                    game_state.move_history@,
                    color,
                    a,
                    b,
                ) implies moves@.contains((a, b)) by {
                if move_index(a, b) < index {
                    let i = choose|i: int| 0 <= i < before.len() && before[i] == (a, b);
                    assert(moves@[i] == (a, b));
                } else {
                    assert(moves@[before.len() as int] == (from, to));
                }
            }
            index = index + 1;
        }
        moves
    }
}

} // verus!
