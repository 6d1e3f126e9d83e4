use tictactoe::game::{
    board_full, cell_glyph, check_winner, Board, BoardCordinate, Command, Direction,
    FinishedState, Game, Player,
};

const X: Option<Player> = Some(Player::Cross);
const O: Option<Player> = Some(Player::Nought);

fn game_with(board: Board) -> Game {
    Game { board, active_tile: BoardCordinate { x: 1, y: 1 }, player_turn: Player::Cross }
}

fn marks(board: &Board) -> usize {
    board.iter().flatten().filter(|c| c.is_some()).count()
}

#[test]
fn test_check_winner_rows() {
    let mut board = Board::default();
    let player = Player::Cross;
    board[0][0] = Some(Player::Cross);
    board[0][1] = Some(Player::Cross);
    board[0][2] = Some(Player::Cross);

    let should_win = check_winner(&board, Some(player));

    assert!(should_win);
}

#[test]
fn fresh_game() {
    let game = Game::default();
    assert_eq!(game.board, [[None; 3]; 3]);
    assert_eq!(game.active_tile.x, 1);
    assert_eq!(game.active_tile.y, 1);
    assert_eq!(game.player_turn, Player::Cross);
}

#[test]
fn cursor_wraps_left_and_right() {
    let mut game = Game::default();
    game.active_tile.x = 0;
    game.move_cursor(Direction::Left);
    assert_eq!(game.active_tile.x, 2);
    game.move_cursor(Direction::Right);
    assert_eq!(game.active_tile.x, 0);
    game.move_cursor(Direction::Right);
    assert_eq!(game.active_tile.x, 1);
    assert_eq!(game.active_tile.y, 1);
}

#[test]
fn cursor_wraps_up_and_down() {
    let mut game = Game::default();
    game.active_tile.y = 0;
    game.move_cursor(Direction::Up);
    assert_eq!(game.active_tile.y, 2);
    game.move_cursor(Direction::Down);
    assert_eq!(game.active_tile.y, 0);
    game.move_cursor(Direction::Up);
    game.move_cursor(Direction::Up);
    assert_eq!(game.active_tile.y, 1);
    assert_eq!(game.active_tile.x, 1);
}

#[test]
fn cursor_moves_leave_board_and_turn() {
    let mut game = Game::default();
    game.place_mark();
    game.move_cursor(Direction::Down);
    assert_eq!(marks(&game.board), 1);
    assert_eq!(game.player_turn, Player::Nought);
}

#[test]
fn second_placement_on_same_cell_is_ignored() {
    let mut game = Game::default();
    game.place_mark();
    assert_eq!(game.board[1][1], X);
    assert_eq!(game.player_turn, Player::Nought);
    game.place_mark();
    assert_eq!(game.board[1][1], X);
    assert_eq!(marks(&game.board), 1);
    assert_eq!(game.player_turn, Player::Nought);
}

#[test]
fn turns_alternate_with_accepted_placements() {
    let mut game = Game::default();
    let commands = [
        Command::PlaceMark,
        Command::PlaceMark,
        Command::MoveCursor(Direction::Right),
        Command::PlaceMark,
        Command::MoveCursor(Direction::Up),
        Command::PlaceMark,
        Command::PlaceMark,
        Command::MoveCursor(Direction::Left),
        Command::PlaceMark,
    ];
    for command in commands {
        game.apply(command);
    }
    assert_eq!(marks(&game.board), 4);
    assert_eq!(game.player_turn, Player::Cross);
    assert_eq!(game.board[1][1], X);
    assert_eq!(game.board[1][2], O);
    assert_eq!(game.board[0][2], X);
    assert_eq!(game.board[0][1], O);
    game.apply(Command::MoveCursor(Direction::Down));
    game.apply(Command::PlaceMark);
    assert_eq!(game.board[1][1], X);
    assert_eq!(game.player_turn, Player::Cross);
    game.apply(Command::MoveCursor(Direction::Down));
    game.apply(Command::PlaceMark);
    assert_eq!(game.board[2][1], X);
    assert_eq!(game.player_turn, Player::Nought);
}

#[test]
fn row_win() {
    let mut game = game_with([[X, X, X], [None; 3], [None; 3]]);
    assert_eq!(game.check_finish_state(), Some(FinishedState::Won(Player::Cross)));
}

#[test]
fn every_row_wins() {
    for r in 0..3 {
        let mut board = Board::default();
        board[r] = [O, O, O];
        assert!(check_winner(&board, O));
        assert!(!check_winner(&board, X));
    }
}

#[test]
fn column_win() {
    let mut game = game_with([[None, None, O], [None, None, O], [None, None, O]]);
    assert_eq!(game.check_finish_state(), Some(FinishedState::Won(Player::Nought)));
}

#[test]
fn every_column_wins() {
    for c in 0..3 {
        let mut board = Board::default();
        for r in 0..3 {
            board[r][c] = X;
        }
        assert!(check_winner(&board, X));
        assert!(!check_winner(&board, O));
    }
}

#[test]
fn diagonal_win() {
    let mut game = game_with([[X, None, None], [None, X, None], [None, None, X]]);
    assert_eq!(game.check_finish_state(), Some(FinishedState::Won(Player::Cross)));
}

#[test]
fn anti_diagonal_win() {
    let mut game = game_with([[None, None, O], [None, O, None], [O, None, None]]);
    assert_eq!(game.check_finish_state(), Some(FinishedState::Won(Player::Nought)));
}

#[test]
fn draw_on_full_board_without_line() {
    let mut game = game_with([[X, O, X], [X, O, O], [O, X, X]]);
    assert_eq!(game.check_finish_state(), Some(FinishedState::Draw));
    assert!(board_full(&game.board));
}

#[test]
fn full_board_with_line_is_a_win() {
    let mut game = game_with([[X, X, X], [O, O, X], [X, O, O]]);
    assert_eq!(game.check_finish_state(), Some(FinishedState::Won(Player::Cross)));
}

#[test]
fn cross_is_found_before_nought() {
    let mut game = game_with([[O, O, O], [X, X, X], [None; 3]]);
    assert_eq!(game.check_finish_state(), Some(FinishedState::Won(Player::Cross)));
}

#[test]
fn empty_board_is_ongoing() {
    let mut game = Game::default();
    assert_eq!(game.check_finish_state(), None);
    assert!(!board_full(&game.board));
}

#[test]
fn partial_board_without_line_is_ongoing() {
    let mut game = game_with([[X, O, X], [None, O, None], [O, X, None]]);
    assert_eq!(game.check_finish_state(), None);
    let mut almost = game_with([[X, O, X], [X, O, O], [O, X, None]]);
    assert_eq!(almost.check_finish_state(), None);
}

#[test]
fn evaluation_leaves_game_unchanged() {
    let mut game = game_with([[X, O, None], [None; 3], [None; 3]]);
    game.check_finish_state();
    assert_eq!(game.board, [[X, O, None], [None; 3], [None; 3]]);
    assert_eq!(game.player_turn, Player::Cross);
}

#[test]
fn two_in_a_row_is_no_win() {
    let board: Board = [[X, X, None], [None; 3], [None; 3]];
    assert!(!check_winner(&board, X));
    let board: Board = [[X, X, O], [None; 3], [None; 3]];
    assert!(!check_winner(&board, X));
    assert!(!check_winner(&board, O));
    let board: Board = [[O, None, None], [None, O, None], [None, None, X]];
    assert!(!check_winner(&board, O));
    let mut game = game_with([[None, X, None], [None, X, None], [None, O, None]]);
    assert_eq!(game.check_finish_state(), None);
}

#[test]
fn glyphs() {
    assert_eq!(cell_glyph(X), "X");
    assert_eq!(cell_glyph(O), "O");
    assert_eq!(cell_glyph(None), "");
}

#[test]
fn end_messages() {
    assert_eq!(FinishedState::Won(Player::Cross).message(), "X is the winner. <q> to exit");
    assert_eq!(FinishedState::Won(Player::Nought).message(), "O is the winner. <q> to exit");
    assert_eq!(FinishedState::Draw.message(), "It is a draw. <q> to exit");
}
