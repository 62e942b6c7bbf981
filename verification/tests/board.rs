use peer_games::util::{Board, Field, PlacementError};

const LINES: [[usize; 3]; 8] = [
    [0, 1, 2],
    [3, 4, 5],
    [6, 7, 8],
    [0, 3, 6],
    [1, 4, 7],
    [2, 5, 8],
    [0, 4, 8],
    [2, 4, 6],
];

fn board_of(cells: [Field; 9]) -> Board {
    let mut board = Board::new(true);
    for (index, field) in cells.iter().enumerate() {
        if *field != Field::Empty {
            assert_eq!(board.place(index, *field), Ok(()));
        }
    }
    board
}

#[test]
fn new_board_is_empty() {
    let board = Board::new(true);
    assert!(board.is_playing());
    assert_eq!(board.cells(), [Field::Empty; 9]);
    assert!(!board.is_full());
    assert!(!board.is_win(Field::Server));
    assert!(!board.is_win(Field::Client));
    let board = Board::new(false);
    assert!(!board.is_playing());
    assert_eq!(board.cells(), [Field::Empty; 9]);
}

#[test]
fn place_sets_the_cell_and_flips_the_turn() {
    let mut board = Board::new(true);
    assert_eq!(board.place(4, Field::Server), Ok(()));
    assert!(!board.is_playing());
    let mut expected = [Field::Empty; 9];
    expected[4] = Field::Server;
    assert_eq!(board.cells(), expected);
    assert_eq!(board.place(0, Field::Client), Ok(()));
    assert!(board.is_playing());
    expected[0] = Field::Client;
    assert_eq!(board.cells(), expected);
    assert_eq!(board.place(8, Field::Server), Ok(()));
    assert!(!board.is_playing());
    expected[8] = Field::Server;
    assert_eq!(board.cells(), expected);
}

#[test]
fn place_out_of_range_changes_nothing() {
    let mut board = Board::new(true);
    assert_eq!(board.place(3, Field::Client), Ok(()));
    let cells = board.cells();
    for index in [9, 10, 255, 256, usize::MAX] {
        assert_eq!(board.place(index, Field::Server), Err(PlacementError::OutOfRange));
        assert!(!board.is_playing());
        assert_eq!(board.cells(), cells);
    }
}

#[test]
fn place_on_occupied_cell_changes_nothing() {
    let mut board = Board::new(false);
    assert_eq!(board.place(8, Field::Server), Ok(()));
    let cells = board.cells();
    assert_eq!(board.place(8, Field::Client), Err(PlacementError::CellOccupied));
    assert_eq!(board.place(8, Field::Server), Err(PlacementError::CellOccupied));
    assert_eq!(board.place(8, Field::Empty), Err(PlacementError::CellOccupied));
    assert!(board.is_playing());
    assert_eq!(board.cells(), cells);
}

#[test]
fn every_line_wins_for_its_owner_only() {
    for line in LINES {
        for who in [Field::Server, Field::Client] {
            let other = if who == Field::Server { Field::Client } else { Field::Server };
            let mut cells = [Field::Empty; 9];
            for index in line {
                cells[index] = who;
            }
            let board = board_of(cells);
            assert!(board.is_win(who), "line {:?}", line);
            assert!(!board.is_win(other), "line {:?}", line);
        }
    }
}

#[test]
fn two_cells_of_a_line_do_not_win() {
    for line in LINES {
        for missing in 0..3 {
            let mut cells = [Field::Empty; 9];
            for (k, index) in line.iter().enumerate() {
                cells[*index] = if k == missing { Field::Client } else { Field::Server };
            }
            let board = board_of(cells);
            assert!(!board.is_win(Field::Server), "line {:?}", line);
            assert!(!board.is_win(Field::Client), "line {:?}", line);
        }
    }
}

#[test]
fn full_board_without_a_line_has_no_winner() {
    let x = Field::Server;
    let o = Field::Client;
    let board = board_of([x, o, x, x, o, o, o, x, x]);
    assert!(board.is_full());
    assert!(!board.is_win(x));
    assert!(!board.is_win(o));
    assert!(!board.is_win(Field::Empty));
}

#[test]
fn empty_cells_count_as_a_line_of_nobody() {
    let board = Board::new(true);
    assert!(board.is_win(Field::Empty));
    let mut board = Board::new(true);
    for index in [0, 4, 8, 2, 6] {
        assert_eq!(board.place(index, Field::Server), Ok(()));
    }
    assert!(!board.is_win(Field::Empty));
}

#[test]
fn is_full_needs_all_nine_cells() {
    let mut board = Board::new(true);
    for index in 0..9 {
        assert!(!board.is_full());
        let who = if index % 2 == 0 { Field::Server } else { Field::Client };
        assert_eq!(board.place(index, who), Ok(()));
    }
    assert!(board.is_full());
    assert_eq!(board.place(0, Field::Server), Err(PlacementError::CellOccupied));
}

#[test]
fn at_most_one_winner_along_a_game() {
    // Server opens; the game stops with the placement that completes a line.
    let games: [&[usize]; 4] = [
        &[0, 3, 1, 4, 2],
        &[4, 0, 8, 2, 6, 1],
        &[0, 1, 2, 4, 3, 5, 7, 6, 8],
        &[8, 7, 6, 5, 4, 3, 2],
    ];
    for game in games {
        let mut board = Board::new(true);
        for (k, index) in game.iter().enumerate() {
            assert!(!board.is_win(Field::Server) && !board.is_win(Field::Client));
            let who = if k % 2 == 0 { Field::Server } else { Field::Client };
            assert_eq!(board.place(*index, who), Ok(()));
            assert!(!(board.is_win(Field::Server) && board.is_win(Field::Client)));
        }
    }
}

#[test]
fn title_names_the_winner_or_the_turn() {
    let mut board = Board::new(true);
    assert_eq!(board.title(), "Your turn");
    assert_eq!(board.place(0, Field::Server), Ok(()));
    assert_eq!(board.title(), "Others turn");
    assert_eq!(board.place(3, Field::Client), Ok(()));
    assert_eq!(board.place(1, Field::Server), Ok(()));
    assert_eq!(board.place(4, Field::Client), Ok(()));
    assert_eq!(board.place(2, Field::Server), Ok(()));
    assert_eq!(board.title(), "X wins!");
    let mut board = Board::new(false);
    for index in [2, 4, 6] {
        assert_eq!(board.place(index, Field::Client), Ok(()));
    }
    assert_eq!(board.title(), "O wins!");
}

#[test]
fn labels_show_marks_and_numbers() {
    let mut board = Board::new(true);
    assert_eq!(board.labels(), ['1', '2', '3', '4', '5', '6', '7', '8', '9']);
    assert_eq!(board.place(0, Field::Server), Ok(()));
    assert_eq!(board.labels(), ['X', ' ', ' ', ' ', ' ', ' ', ' ', ' ', ' ']);
    assert_eq!(board.place(8, Field::Client), Ok(()));
    assert_eq!(board.labels(), ['X', '2', '3', '4', '5', '6', '7', '8', 'O']);
}

#[test]
fn full_board_is_not_playing() {
    let mut board = Board::new(false);
    let marks = [Field::Server, Field::Client];
    for (k, index) in [0usize, 1, 2, 4, 3, 5, 7, 6, 8].iter().enumerate() {
        assert_eq!(board.is_playing(), k % 2 == 1);
        assert_eq!(board.place(*index, marks[k % 2]), Ok(()));
    }
    assert!(board.is_full());
    assert!(!board.is_win(Field::Server));
    assert!(!board.is_win(Field::Client));
    // The ninth placement has passed the turn to the local peer, and still
    // nobody can place.
    assert_eq!(board.labels()[0], 'X');
    assert!(!board.is_playing());
    assert_eq!(board.place(0, Field::Client), Err(PlacementError::CellOccupied));
    assert!(!board.is_playing());
}

#[test]
fn won_board_is_not_playing_for_either_peer() {
    for first_turn in [true, false] {
        let mut board = Board::new(first_turn);
        let marks = [Field::Server, Field::Client];
        for (k, index) in [0usize, 3, 1, 4].iter().enumerate() {
            assert_eq!(board.is_playing(), first_turn == (k % 2 == 0));
            assert_eq!(board.place(*index, marks[k % 2]), Ok(()));
        }
        assert_eq!(board.is_playing(), first_turn);
        assert_eq!(board.place(2, Field::Server), Ok(()));
        assert!(board.is_win(Field::Server));
        assert!(!board.is_playing());
        // A further placement would pass the turn on, and changes nothing
        // about that.
        assert_eq!(board.place(8, Field::Client), Ok(()));
        assert!(!board.is_playing());
    }
}

#[test]
fn is_playing_is_the_turn_while_the_game_runs() {
    let mut board = Board::new(true);
    assert!(board.is_playing());
    assert_eq!(board.place(4, Field::Server), Ok(()));
    assert!(!board.is_playing());
    assert_eq!(board.place(9, Field::Client), Err(PlacementError::OutOfRange));
    assert!(!board.is_playing());
    assert_eq!(board.place(4, Field::Client), Err(PlacementError::CellOccupied));
    assert!(!board.is_playing());
    assert_eq!(board.place(0, Field::Client), Ok(()));
    assert!(board.is_playing());
}
