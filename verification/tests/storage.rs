use connect4::models::{format_coordinate, parse_coordinate, BoardState, CoordinateError, StoredBoardState};
use std::collections::HashMap;

#[test]
fn coordinates_are_written_as_x_comma_y() {
    assert_eq!(format_coordinate(12, 5), "12,5");
    assert_eq!(format_coordinate(0, 0), "0,0");
    assert_eq!(format_coordinate(u64::MAX, 255), "18446744073709551615,255");
}

#[test]
fn coordinates_read_back() {
    assert_eq!(parse_coordinate("12,5"), Ok((12, 5)));
    assert_eq!(parse_coordinate("+7,+0"), Ok((7, 0)));
    assert_eq!(parse_coordinate("007,010"), Ok((7, 10)));
    assert_eq!(parse_coordinate("18446744073709551615,255"), Ok((u64::MAX, 255)));
    for x in [0u64, 1, 9, 10, 99, 100, 12345678901234, u64::MAX] {
        for y in [0u8, 1, 9, 10, 200, 255] {
            assert_eq!(parse_coordinate(&format_coordinate(x, y)), Ok((x, y)));
        }
    }
}

#[test]
fn unreadable_coordinates_are_refused() {
    assert_eq!(parse_coordinate("12"), Err(CoordinateError::MissingDelimiter));
    assert_eq!(parse_coordinate(""), Err(CoordinateError::MissingDelimiter));
    assert_eq!(parse_coordinate(",1"), Err(CoordinateError::InvalidX));
    assert_eq!(parse_coordinate("a,1"), Err(CoordinateError::InvalidX));
    assert_eq!(parse_coordinate("-1,1"), Err(CoordinateError::InvalidX));
    assert_eq!(parse_coordinate("+,1"), Err(CoordinateError::InvalidX));
    assert_eq!(parse_coordinate("18446744073709551616,1"), Err(CoordinateError::InvalidX));
    assert_eq!(parse_coordinate("1,256"), Err(CoordinateError::InvalidY));
    assert_eq!(parse_coordinate("1,"), Err(CoordinateError::InvalidY));
    assert_eq!(parse_coordinate("1,2,3"), Err(CoordinateError::InvalidY));
    assert_eq!(parse_coordinate("x,y"), Err(CoordinateError::InvalidX));
}

#[test]
fn coordinate_errors_carry_their_messages() {
    assert_eq!(CoordinateError::MissingDelimiter.message(), "invalid coordinate");
    assert_eq!(CoordinateError::InvalidX.message(), "invalid x coordinate");
    assert_eq!(CoordinateError::InvalidY.message(), "invalid y coordinate");
}

#[test]
fn a_stored_board_reads_back_as_the_board() {
    let mut board = BoardState::new();
    board.set_position(0, 0, 1);
    board.set_position(0, 1, 2);
    board.set_position(3, 0, 1);
    board.set_position(u64::MAX, 255, -4);
    board.set_height(0, 2);
    board.set_height(3, 1);
    let stored = board.to_stored();
    assert_eq!(stored.positions.len(), 4);
    let mut keys: Vec<String> = stored.positions.iter().map(|(k, _)| k.clone()).collect();
    keys.sort();
    assert_eq!(keys, vec!["0,0", "0,1", "18446744073709551615,255", "3,0"]);
    let back = BoardState::from_stored(stored).ok().unwrap();
    assert_eq!(back.position(0, 0), Some(1));
    assert_eq!(back.position(0, 1), Some(2));
    assert_eq!(back.position(3, 0), Some(1));
    assert_eq!(back.position(u64::MAX, 255), Some(-4));
    assert_eq!(back.position(1, 0), None);
    assert_eq!(back.height(0), 2);
    assert_eq!(back.height(3), 1);
    assert_eq!(back.height(1), 0);
}

#[test]
fn reading_a_stored_board_reports_the_first_bad_key() {
    let stored = StoredBoardState {
        positions: vec![("1,1".to_string(), 3), ("bad".to_string(), 4), ("x,1".to_string(), 5)],
        heights: HashMap::new(),
    };
    assert_eq!(BoardState::from_stored(stored).err(), Some(CoordinateError::MissingDelimiter));
}

#[test]
fn a_later_entry_for_a_cell_wins() {
    let stored = StoredBoardState {
        positions: vec![("1,1".to_string(), 3), ("01,1".to_string(), 4)],
        heights: HashMap::from([(1, 2)]),
    };
    let board = BoardState::from_stored(stored).ok().unwrap();
    assert_eq!(board.position(1, 1), Some(4));
    assert_eq!(board.height(1), 2);
}
