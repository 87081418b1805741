use chess_app::types::Position;

#[test]
fn test_position_from_notation() {
    // Test valid notations
    let a1 = Position::from_notation("a1").unwrap();
    assert_eq!(a1.file, 0);
    assert_eq!(a1.rank, 0);

    let e4 = Position::from_notation("e4").unwrap();
    assert_eq!(e4.file, 4);
    assert_eq!(e4.rank, 3);

    let h8 = Position::from_notation("h8").unwrap();
    assert_eq!(h8.file, 7);
    assert_eq!(h8.rank, 7);

    // Test invalid notations
    assert!(Position::from_notation("i9").is_none());
    assert!(Position::from_notation("a0").is_none());
    assert!(Position::from_notation("a9").is_none());
    assert!(Position::from_notation("").is_none());
    assert!(Position::from_notation("a").is_none());
    assert!(Position::from_notation("abc").is_none());
}

#[test]
fn test_position_to_notation() {
    // Test valid positions
    let a1 = Position { file: 0, rank: 0 };
    assert_eq!(a1.to_notation(), "a1");

    let e4 = Position { file: 4, rank: 3 };
    assert_eq!(e4.to_notation(), "e4");

    let h8 = Position { file: 7, rank: 7 };
    assert_eq!(h8.to_notation(), "h8");

    // Test invalid positions (these should handle gracefully)
    let invalid = Position { file: 8, rank: 8 };
    assert!(invalid.to_notation().starts_with("Invalid"));
}

#[test]
fn test_notation_roundtrip() {
    // Test conversion in both directions
    for file in 0..8 {
        for rank in 0..8 {
            let pos = Position { file, rank };
            let notation = pos.to_notation();
            let converted_pos = Position::from_notation(&notation).unwrap();
            assert_eq!(pos, converted_pos, "Position roundtrip failed for {}", notation);
        }
    }
}

#[test]
fn invalid_position_text_names_both_coordinates() {
    assert_eq!(
        Position { file: 8, rank: 8 }.to_notation(),
        "Invalid position: file=8, rank=8"
    );
    assert_eq!(
        Position { file: 10, rank: 255 }.to_notation(),
        "Invalid position: file=10, rank=255"
    );
    assert_eq!(
        Position { file: 100, rank: 0 }.to_notation(),
        "Invalid position: file=100, rank=0"
    );
    assert_eq!(
        Position { file: 3, rank: 109 }.to_notation(),
        "Invalid position: file=3, rank=109"
    );
}

#[test]
fn from_notation_rejects_text_that_is_not_a_square() {
    assert!(Position::from_notation("A1").is_none());
    assert!(Position::from_notation("1a").is_none());
    assert!(Position::from_notation("e ").is_none());
    assert!(Position::from_notation(" e4").is_none());
    assert!(Position::from_notation("h9").is_none());
    assert!(Position::from_notation("\u{e9}").is_none());
    assert!(Position::from_notation("a\u{661}").is_none());
    assert_eq!(Position::from_notation("h1"), Some(Position { file: 7, rank: 0 }));
    assert_eq!(Position::from_notation("a8"), Some(Position { file: 0, rank: 7 }));
}

#[test]
fn new_position_checks_the_range() {
    assert_eq!(Position::new(0, 0), Some(Position { file: 0, rank: 0 }));
    assert_eq!(Position::new(7, 7), Some(Position { file: 7, rank: 7 }));
    assert_eq!(Position::new(8, 0), None);
    assert_eq!(Position::new(0, 8), None);
    assert_eq!(Position::new(255, 255), None);
    assert!(Position { file: 7, rank: 0 }.is_valid());
    assert!(!Position { file: 8, rank: 0 }.is_valid());
}
