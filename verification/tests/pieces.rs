use chess_app::board::Board;
use chess_app::state::{GameState, GameStatus};
use chess_app::types::{Color, Piece, PieceType, Position};

fn sq(file: u8, rank: u8) -> Position {
    Position { file, rank }
}

fn lone(kind: PieceType, color: Color, file: u8, rank: u8) -> GameState {
    let mut board = Board::new();
    board.set_piece(sq(file, rank), Some(Piece::new(kind, color)));
    GameState {
        board,
        current_player: color,
        status: GameStatus::InProgress,
        move_history: Vec::new(),
    }
}

#[test]
fn distances_and_lines() {
    let board = Board::new();
    assert_eq!(board.rank_distance(sq(0, 1), sq(0, 6)), 5);
    assert_eq!(board.rank_distance(sq(0, 6), sq(0, 1)), 5);
    assert_eq!(board.file_distance(sq(7, 0), sq(2, 0)), 5);
    assert_eq!(board.file_distance(sq(3, 0), sq(3, 7)), 0);
    assert!(board.is_same_color(Color::White, Color::White));
    assert!(!board.is_same_color(Color::White, Color::Black));
    assert!(board.is_diagonal_move(sq(0, 0), sq(7, 7)));
    assert!(board.is_diagonal_move(sq(5, 2), sq(3, 4)));
    assert!(!board.is_diagonal_move(sq(0, 0), sq(0, 0)));
    assert!(!board.is_diagonal_move(sq(0, 0), sq(1, 2)));
    assert!(board.is_straight_move(sq(0, 0), sq(0, 7)));
    assert!(board.is_straight_move(sq(6, 3), sq(1, 3)));
    assert!(!board.is_straight_move(sq(0, 0), sq(0, 0)));
    assert!(!board.is_straight_move(sq(0, 0), sq(1, 1)));
}

#[test]
fn a_path_is_clear_when_nothing_stands_between() {
    let mut board = Board::new();
    board.set_piece(sq(0, 0), Some(Piece::new(PieceType::Rook, Color::White)));
    board.set_piece(sq(0, 5), Some(Piece::new(PieceType::Pawn, Color::Black)));
    // The ends do not count.
    assert!(board.is_path_clear(sq(0, 0), sq(0, 5)));
    assert!(board.is_path_clear(sq(0, 5), sq(0, 0)));
    assert!(!board.is_path_clear(sq(0, 0), sq(0, 6)));
    assert!(!board.is_path_clear(sq(0, 7), sq(0, 1)));
    assert!(board.is_path_clear(sq(0, 0), sq(7, 0)));
    assert!(board.is_path_clear(sq(0, 0), sq(0, 1)));
    assert!(board.is_path_clear(sq(3, 3), sq(3, 3)));
    board.set_piece(sq(3, 3), Some(Piece::new(PieceType::Pawn, Color::Black)));
    assert!(!board.is_path_clear(sq(1, 1), sq(5, 5)));
    assert!(!board.is_path_clear(sq(5, 5), sq(1, 1)));
    assert!(!board.is_path_clear(sq(1, 5), sq(5, 1)));
    assert!(board.is_path_clear(sq(1, 1), sq(3, 3)));
    assert!(board.is_path_clear(sq(2, 5), sq(5, 2)));
}

#[test]
fn a_knight_leaps() {
    let game = lone(PieceType::Knight, Color::White, 3, 3);
    let expected = vec![
        sq(2, 1),
        sq(4, 1),
        sq(1, 2),
        sq(5, 2),
        sq(1, 4),
        sq(5, 4),
        sq(2, 5),
        sq(4, 5),
    ];
    assert_eq!(game.legal_destinations(sq(3, 3)), expected);
    assert!(game.board.is_valid_knight_move(sq(3, 3), sq(4, 5)));
    assert!(!game.board.is_valid_knight_move(sq(3, 3), sq(5, 5)));
    assert!(!game.board.is_valid_knight_move(sq(3, 3), sq(3, 3)));
    let corner = lone(PieceType::Knight, Color::Black, 0, 0);
    assert_eq!(corner.legal_destinations(sq(0, 0)), vec![sq(2, 1), sq(1, 2)]);
    let start = GameState::new();
    assert_eq!(start.legal_destinations(sq(1, 0)), vec![sq(0, 2), sq(2, 2)]);
}

#[test]
fn sliding_pieces_stop_at_the_first_piece() {
    let mut game = lone(PieceType::Rook, Color::White, 0, 0);
    game.board.set_piece(sq(0, 3), Some(Piece::new(PieceType::Pawn, Color::Black)));
    game.board.set_piece(sq(2, 0), Some(Piece::new(PieceType::Pawn, Color::White)));
    assert_eq!(
        game.legal_destinations(sq(0, 0)),
        vec![sq(1, 0), sq(0, 1), sq(0, 2), sq(0, 3)]
    );
    assert!(game.board.is_valid_rook_move(sq(0, 0), sq(0, 3)));
    assert!(!game.board.is_valid_rook_move(sq(0, 0), sq(0, 4)));
    assert!(!game.board.is_valid_rook_move(sq(0, 0), sq(1, 1)));

    let mut game = lone(PieceType::Bishop, Color::Black, 2, 0);
    game.board.set_piece(sq(4, 2), Some(Piece::new(PieceType::Pawn, Color::White)));
    assert_eq!(
        game.legal_destinations(sq(2, 0)),
        vec![sq(1, 1), sq(3, 1), sq(0, 2), sq(4, 2)]
    );
    assert!(game.board.is_valid_bishop_move(sq(2, 0), sq(4, 2)));
    assert!(!game.board.is_valid_bishop_move(sq(2, 0), sq(5, 3)));
    assert!(!game.board.is_valid_bishop_move(sq(2, 0), sq(2, 3)));

    let game = lone(PieceType::Queen, Color::White, 3, 3);
    assert_eq!(game.legal_destinations(sq(3, 3)).len(), 27);
    assert!(game.board.is_valid_queen_move(sq(3, 3), sq(3, 7)));
    assert!(game.board.is_valid_queen_move(sq(3, 3), sq(0, 0)));
    assert!(!game.board.is_valid_queen_move(sq(3, 3), sq(4, 5)));
    assert!(!game.board.is_valid_queen_move(sq(3, 3), sq(3, 3)));
}

#[test]
fn a_king_steps_one_square() {
    let game = lone(PieceType::King, Color::White, 3, 3);
    assert_eq!(game.legal_destinations(sq(3, 3)).len(), 8);
    assert!(game.board.is_valid_king_move(sq(3, 3), sq(4, 4), Color::White, &game));
    assert!(!game.board.is_valid_king_move(sq(3, 3), sq(5, 3), Color::White, &game));
    assert!(!game.board.is_valid_king_move(sq(3, 3), sq(3, 5), Color::White, &game));
    assert_eq!(game.board.find_king(Color::White), Some(sq(3, 3)));
    assert_eq!(game.board.find_king(Color::Black), None);
    assert!(!game.board.is_in_check(Color::Black));
}

#[test]
fn attacks_follow_the_pieces() {
    let mut board = Board::new();
    board.set_piece(sq(3, 3), Some(Piece::new(PieceType::Pawn, Color::White)));
    assert!(board.is_square_attacked(sq(2, 4), Color::White));
    assert!(board.is_square_attacked(sq(4, 4), Color::White));
    // A pawn does not attack the square ahead, nor those behind.
    assert!(!board.is_square_attacked(sq(3, 4), Color::White));
    assert!(!board.is_square_attacked(sq(2, 2), Color::White));
    assert!(!board.is_square_attacked(sq(2, 4), Color::Black));
    assert!(board.attacks(sq(3, 3), sq(4, 4), Color::White));
    assert!(!board.attacks(sq(3, 3), sq(4, 4), Color::Black));
    assert!(!board.attacks(sq(0, 0), sq(1, 1), Color::White));

    board.set_piece(sq(3, 3), Some(Piece::new(PieceType::Pawn, Color::Black)));
    assert!(board.is_square_attacked(sq(2, 2), Color::Black));
    assert!(board.is_square_attacked(sq(4, 2), Color::Black));
    assert!(!board.is_square_attacked(sq(4, 4), Color::Black));

    let mut board = Board::new();
    board.set_piece(sq(0, 0), Some(Piece::new(PieceType::Queen, Color::Black)));
    board.set_piece(sq(0, 4), Some(Piece::new(PieceType::Knight, Color::White)));
    assert!(board.is_square_attacked(sq(7, 7), Color::Black));
    assert!(board.is_square_attacked(sq(0, 4), Color::Black));
    assert!(!board.is_square_attacked(sq(0, 5), Color::Black));
    assert!(!board.is_square_attacked(sq(1, 2), Color::Black));
    assert!(board.is_square_attacked(sq(1, 2), Color::White));
    assert!(!board.is_square_attacked(sq(8, 8), Color::Black));

    let mut board = Board::new();
    board.set_piece(sq(4, 4), Some(Piece::new(PieceType::King, Color::White)));
    assert!(board.is_square_attacked(sq(5, 5), Color::White));
    assert!(board.is_square_attacked(sq(4, 3), Color::White));
    assert!(!board.is_square_attacked(sq(6, 4), Color::White));
}

#[test]
fn check_comes_from_the_other_colour() {
    let mut board = Board::new();
    board.set_piece(sq(4, 0), Some(Piece::new(PieceType::King, Color::White)));
    board.set_piece(sq(4, 7), Some(Piece::new(PieceType::Rook, Color::White)));
    assert!(!board.is_in_check(Color::White));
    board.set_piece(sq(4, 7), Some(Piece::new(PieceType::Rook, Color::Black)));
    assert!(board.is_in_check(Color::White));
    board.set_piece(sq(4, 3), Some(Piece::new(PieceType::Pawn, Color::White)));
    assert!(!board.is_in_check(Color::White));
    assert!(!Board::new_game().is_in_check(Color::White));
    assert!(!Board::new_game().is_in_check(Color::Black));
}

#[test]
fn apply_move_carries_a_move_out() {
    let mut board = Board::new_game();
    assert!(!board.apply_move(sq(4, 3), sq(4, 4), None));
    assert!(!board.apply_move(sq(4, 1), sq(4, 8), None));
    assert!(!board.apply_move(sq(8, 1), sq(4, 4), None));
    assert_eq!(board, Board::new_game());
    assert!(board.apply_move(sq(4, 1), sq(4, 3), None));
    assert_eq!(board.get_piece(sq(4, 1)), None);
    assert_eq!(board.get_piece(sq(4, 3)), Some(Piece::new(PieceType::Pawn, Color::White)));
}

#[test]
fn pawn_moves_by_colour() {
    let game = GameState::new();
    let board = game.board;
    assert!(board.is_valid_pawn_move(sq(0, 1), sq(0, 2), Color::White, &game));
    assert!(board.is_valid_pawn_move(sq(0, 1), sq(0, 3), Color::White, &game));
    assert!(!board.is_valid_pawn_move(sq(0, 1), sq(1, 2), Color::White, &game));
    assert!(!board.is_valid_pawn_move(sq(0, 1), sq(0, 0), Color::White, &game));
    assert!(board.is_valid_pawn_move(sq(0, 6), sq(0, 5), Color::Black, &game));
    assert!(board.is_valid_pawn_move(sq(0, 6), sq(0, 4), Color::Black, &game));
    assert!(!board.is_valid_pawn_move(sq(0, 6), sq(0, 7), Color::Black, &game));
    assert!(!board.is_en_passant(sq(4, 4), sq(3, 5), Color::White, &game));
    assert!(!board.is_castling_allowed(sq(4, 0), sq(6, 0), Color::White, &game));
    assert!(board.has_legal_moves(Color::White, &game));
    assert!(board.has_legal_move_from(sq(1, 0), Color::White, &game));
    assert!(!board.has_legal_move_from(sq(0, 0), Color::White, &game));
    assert_eq!(board.status_for(Color::Black, &game), GameStatus::InProgress);
    assert_eq!(
        board.check_piece_move(Piece::new(PieceType::Rook, Color::White), sq(0, 0), sq(0, 5), &game),
        Some(chess_app::state::MoveError::PathBlocked)
    );
    assert!(board.is_valid_piece_move(Piece::new(PieceType::Knight, Color::White), sq(1, 0), sq(2, 2), &game));
    assert!(board.is_valid_move_with(sq(1, 0), sq(2, 2), Color::White, &game, None));
}

#[test]
fn pieces_are_counted() {
    let board = Board::new_game();
    assert_eq!(board.count_pieces(), 32);
    assert_eq!(board.count_pieces_by_color(Color::White), 16);
    assert_eq!(board.count_pieces_by_color(Color::Black), 16);
    let mut board = Board::new();
    assert_eq!(board.count_pieces(), 0);
    board.set_piece(sq(7, 7), Some(Piece::new(PieceType::Queen, Color::Black)));
    board.set_piece(sq(0, 0), Some(Piece::new(PieceType::King, Color::Black)));
    board.set_piece(sq(3, 4), Some(Piece::new(PieceType::Pawn, Color::White)));
    assert_eq!(board.count_pieces(), 3);
    assert_eq!(board.count_pieces_by_color(Color::White), 1);
    assert_eq!(board.count_pieces_by_color(Color::Black), 2);
}

#[test]
fn all_moves_are_generated_in_reading_order() {
    let game = GameState::new();
    let white = game.board.generate_moves(Color::White, &game);
    assert_eq!(white.len(), 20);
    assert_eq!(
        white[..6].to_vec(),
        vec![
            (sq(1, 0), sq(0, 2)),
            (sq(1, 0), sq(2, 2)),
            (sq(6, 0), sq(5, 2)),
            (sq(6, 0), sq(7, 2)),
            (sq(0, 1), sq(0, 2)),
            (sq(0, 1), sq(0, 3)),
        ]
    );
    assert_eq!(white[19], (sq(7, 1), sq(7, 3)));
    assert_eq!(game.board.generate_moves(Color::Black, &game).len(), 20);
    for (from, to) in white {
        assert!(game.board.is_valid_move(from, to, Color::White, &game));
        assert!(game.legal_destinations(from).contains(&to));
    }
    let lone_king = lone(PieceType::King, Color::Black, 0, 0);
    assert_eq!(
        lone_king.board.generate_moves(Color::Black, &lone_king),
        vec![(sq(0, 0), sq(1, 0)), (sq(0, 0), sq(0, 1)), (sq(0, 0), sq(1, 1))]
    );
    assert!(lone_king.board.generate_moves(Color::White, &lone_king).is_empty());
}
