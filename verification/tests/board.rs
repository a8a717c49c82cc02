use tic_tac_toe::board::{BoardItem, CELLS, LINES};
use tic_tac_toe::player::Player;

const E: BoardItem = BoardItem::Empty;
const X: BoardItem = BoardItem::X;
const O: BoardItem = BoardItem::O;

const WINNING_LINES: [[usize; 3]; 8] = [
    [0, 1, 2],
    [3, 4, 5],
    [6, 7, 8],
    [0, 3, 6],
    [1, 4, 7],
    [2, 5, 8],
    [0, 4, 8],
    [2, 4, 6],
];

fn board_with_line(line: [usize; 3], mark: BoardItem) -> [BoardItem; 9] {
    let mut board = [E; 9];
    for index in line {
        board[index] = mark;
    }
    board
}

#[test]
fn board_has_nine_cells_and_eight_lines() {
    assert_eq!(CELLS, 9);
    assert_eq!(LINES, 8);
    assert_eq!(WINNING_LINES.len(), LINES);
}

#[test]
fn empty_board_has_no_winner() {
    assert_eq!(BoardItem::check_who_win(&[E; 9]), None);
}

#[test]
fn each_line_of_x_wins_for_x() {
    for line in WINNING_LINES {
        let board = board_with_line(line, X);
        assert_eq!(BoardItem::check_who_win(&board), Some(Player::X));
    }
}

#[test]
fn each_line_of_o_wins_for_o() {
    for line in WINNING_LINES {
        let board = board_with_line(line, O);
        assert_eq!(BoardItem::check_who_win(&board), Some(Player::O));
    }
}

#[test]
fn two_marks_in_a_line_do_not_win() {
    for line in WINNING_LINES {
        for gap in 0..3 {
            let mut board = board_with_line(line, X);
            board[line[gap]] = E;
            assert_eq!(BoardItem::check_who_win(&board), None);
        }
    }
}

#[test]
fn mixed_line_does_not_win() {
    for line in WINNING_LINES {
        for odd in 0..3 {
            let mut board = board_with_line(line, X);
            board[line[odd]] = O;
            assert_eq!(BoardItem::check_who_win(&board), None);
        }
    }
}

#[test]
fn three_empty_cells_in_a_line_do_not_win() {
    let board = [X, O, X, E, E, E, O, X, O];
    assert_eq!(BoardItem::check_who_win(&board), None);
}

#[test]
fn first_complete_line_decides() {
    let rows = [X, X, X, O, O, O, E, E, E];
    assert_eq!(BoardItem::check_who_win(&rows), Some(Player::X));
    let rows_swapped = [O, O, O, X, X, X, E, E, E];
    assert_eq!(BoardItem::check_who_win(&rows_swapped), Some(Player::O));
    let row_before_column = [O, E, X, O, E, X, X, X, X];
    assert_eq!(BoardItem::check_who_win(&row_before_column), Some(Player::X));
    let late_row_early_column = [E, E, O, X, X, X, O, O, O];
    assert_eq!(BoardItem::check_who_win(&late_row_early_column), Some(Player::X));
}

#[test]
fn two_lines_of_one_player_win_for_that_player() {
    let board = [X, X, X, X, O, O, X, O, O];
    assert_eq!(BoardItem::check_who_win(&board), Some(Player::X));
}

#[test]
fn full_board_without_line_has_no_winner() {
    let board = [X, O, X, X, O, O, O, X, X];
    assert_eq!(BoardItem::check_who_win(&board), None);
    assert!(BoardItem::is_full(&board));
}

#[test]
fn is_full_only_without_empty_cells() {
    assert!(!BoardItem::is_full(&[E; 9]));
    assert!(BoardItem::is_full(&[X; 9]));
    assert!(BoardItem::is_full(&[O, X, O, X, O, X, O, X, O]));
    for gap in 0..9 {
        let mut board = [X; 9];
        board[gap] = E;
        assert!(!BoardItem::is_full(&board));
    }
}

#[test]
fn from_player_gives_the_players_mark() {
    assert_eq!(BoardItem::from_player(Player::X), BoardItem::X);
    assert_eq!(BoardItem::from_player(Player::O), BoardItem::O);
}

#[test]
fn player_of_a_mark() {
    assert_eq!(BoardItem::X.player(), Some(Player::X));
    assert_eq!(BoardItem::O.player(), Some(Player::O));
    assert_eq!(BoardItem::Empty.player(), None);
    assert_eq!(BoardItem::from_player(Player::X).player(), Some(Player::X));
    assert_eq!(BoardItem::from_player(Player::O).player(), Some(Player::O));
}

#[test]
fn cell_text() {
    assert_eq!(BoardItem::X.text(), "X");
    assert_eq!(BoardItem::O.text(), "O");
    assert_eq!(BoardItem::Empty.text(), "");
}

#[test]
fn player_text() {
    assert_eq!(Player::X.text(), "X");
    assert_eq!(Player::O.text(), "O");
}

#[test]
fn opponent_swaps_sides() {
    assert_eq!(Player::X.opponent(), Player::O);
    assert_eq!(Player::O.opponent(), Player::X);
    assert_eq!(Player::X.opponent().opponent(), Player::X);
    assert_eq!(Player::O.opponent().opponent(), Player::O);
}
