use connect4::models::BoardState;
use connect4::services::connect4_engine::{
    get_position, has_consecutives, make_move, Connect4Result, PlayerMove,
};

fn play(board: BoardState, player_id: i64, x: u64) -> (Connect4Result, BoardState) {
    make_move(board, PlayerMove { player_id, x })
}

#[test]
fn first_move_lands_at_the_bottom() {
    let (result, board) = play(BoardState::new(), 7, 3);
    assert!(matches!(result, Connect4Result::AllowedMove));
    assert_eq!(board.position(3, 0), Some(7));
    assert_eq!(board.height(3), 1);
    assert_eq!(board.height(2), 0);
    assert_eq!(board.position(3, 1), None);
}

#[test]
fn tokens_stack_in_a_column() {
    let (_, board) = play(BoardState::new(), 1, 0);
    let (_, board) = play(board, 2, 0);
    let (_, board) = play(board, 1, 0);
    assert_eq!(board.position(0, 0), Some(1));
    assert_eq!(board.position(0, 1), Some(2));
    assert_eq!(board.position(0, 2), Some(1));
    assert_eq!(board.height(0), 3);
}

#[test]
fn a_full_column_refuses_the_move_and_keeps_the_board() {
    let mut board = BoardState::new();
    for i in 0..6 {
        let (result, next) = play(board, i, 5);
        assert!(matches!(result, Connect4Result::AllowedMove));
        board = next;
    }
    assert_eq!(board.height(5), 6);
    let (result, board) = play(board, 99, 5);
    match result {
        Connect4Result::IllegalMove(message) => assert_eq!(message, "Exceeded board height"),
        _ => panic!("a seventh token fits no column"),
    }
    assert_eq!(board.height(5), 6);
    assert_eq!(board.position(5, 6), None);
    assert_eq!(board.position(5, 5), Some(5));
}

#[test]
fn four_in_a_row_is_not_reported_as_a_win() {
    let mut board = BoardState::new();
    for x in 0..3 {
        let (_, next) = play(board, 1, x);
        board = next;
    }
    let (result, board) = play(board, 1, 3);
    assert!(matches!(result, Connect4Result::AllowedMove));
    assert_eq!(board.position(3, 0), Some(1));
}

#[test]
fn a_stored_height_decides_where_the_token_lands() {
    let mut board = BoardState::new();
    board.set_height(4, 2);
    let (result, board) = play(board, 3, 4);
    assert!(matches!(result, Connect4Result::AllowedMove));
    assert_eq!(board.position(4, 2), Some(3));
    assert_eq!(board.height(4), 3);
}

#[test]
fn get_position_sees_only_the_players_tokens() {
    let mut board = BoardState::new();
    board.set_position(2, 1, 5);
    board.set_position(3, 1, 6);
    assert_eq!(get_position(&board, 5, (1, 0), (1, 1)), Some(5));
    assert_eq!(get_position(&board, 5, (2, 0), (1, 1)), None);
    assert_eq!(get_position(&board, 5, (0, 0), (-1, 0)), None);
    assert_eq!(get_position(&board, 5, (2, 0), (0, -1)), None);
    assert_eq!(get_position(&board, 5, (u64::MAX, 0), (1, 0)), None);
    assert_eq!(get_position(&board, 5, (2, 255), (0, 1)), None);
}

#[test]
fn has_consecutives_counts_equal_neighbours() {
    let same = vec![Some(1); 5];
    assert!(has_consecutives(&same, 3));
    assert!(!has_consecutives(&same, 4));
    let six = vec![Some(1); 6];
    assert!(has_consecutives(&six, 4));
    assert!(!has_consecutives(&vec![], 0));
    assert!(has_consecutives(&vec![None], 0));
    let broken = vec![Some(1), Some(1), Some(2), Some(2), Some(2)];
    assert!(has_consecutives(&broken, 1));
    assert!(!has_consecutives(&broken, 2));
    let empty_cells = vec![None, None, None, None, None];
    assert!(has_consecutives(&empty_cells, 3));
}

#[test]
fn four_cell_windows_never_reach_four() {
    let all = vec![Some(9); 4];
    assert!(!has_consecutives(&all, 4));
    assert!(!has_consecutives(&vec![None; 4], 4));
}

#[test]
fn a_found_run_survives_more_cells_and_a_smaller_target() {
    let same = vec![Some(1); 5];
    assert!(has_consecutives(&same, 3));
    let mut wider = vec![Some(2), None];
    wider.extend(same.iter().cloned());
    wider.push(Some(3));
    assert!(has_consecutives(&wider, 3));
    assert!(has_consecutives(&same, 2));
    assert!(has_consecutives(&same, 1));
}
