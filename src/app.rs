//! A simpler game record: the board, the cursor and a flag for whose turn it
//! is. A placement marks an empty cell; a mark once placed stays.
use vstd::prelude::*;
use crate::grid::{grid_of, row_or_column_full, three_in_a_line};

verus! {

/// A mark on the board.
#[derive(PartialEq, Eq, Structural, Clone, Copy, Debug)]
pub enum TileState {
    Nought,
    Cross,
}

/// A cell of the board, by column `x` and row `y`.
pub struct BoardCordinate {
    pub x: usize,
    pub y: usize,
}

impl Default for BoardCordinate {
    /// The centre cell.
    fn default() -> (r: Self)
        ensures
            r.x == 1,
            r.y == 1,
    {
        BoardCordinate { x: 1, y: 1 }
    }
}

pub struct App {
    pub board: [[Option<TileState>; 3]; 3],
    pub active_tile: BoardCordinate,
    pub is_cross_turn: bool,
    pub game_over: bool,
}

impl Default for App {
    /// An empty board, the cursor at the centre, Cross to move.
    fn default() -> (r: Self)
        ensures
            forall|row: int, col: int|
                0 <= row < 3 && 0 <= col < 3 ==> (#[trigger] r.board[row][col]) is None,
            r.active_tile.x == 1,
            r.active_tile.y == 1,
            r.is_cross_turn,
            !r.game_over,
    {
        App {
            board: [[None, None, None], [None, None, None], [None, None, None]],
            active_tile: BoardCordinate::default(),
            is_cross_turn: true,
            game_over: false,
        }
    }
}

impl App {
    /// The cursor lies on the board.
    pub open spec fn wf(&self) -> bool {
        self.active_tile.x < 3 && self.active_tile.y < 3
    }

    /// Write the mark of the player to move on the cell under the cursor and
    /// pass the turn; a cell that is already marked is left as it is, and so
    /// is the turn.
    pub fn handle_move(&mut self)
        requires
            old(self).wf(),
        ensures
            grid_of(old(self).board)[old(self).active_tile.y as int][old(self).active_tile.x as int]
                is Some ==> *final(self) == *old(self),
            grid_of(old(self).board)[old(self).active_tile.y as int][old(self).active_tile.x as int]
                is None ==> grid_of(final(self).board) == grid_of(old(self).board).update(
                old(self).active_tile.y as int,
                grid_of(old(self).board)[old(self).active_tile.y as int].update(
                    old(self).active_tile.x as int,
                    Some(if old(self).is_cross_turn { TileState::Cross } else { TileState::Nought }),
                ),
            ),
            grid_of(old(self).board)[old(self).active_tile.y as int][old(self).active_tile.x as int]
                is None ==> final(self).is_cross_turn == !old(self).is_cross_turn,
            final(self).active_tile == old(self).active_tile,
            final(self).game_over == old(self).game_over,
    {
        let x = self.active_tile.x;
        let y = self.active_tile.y;
        if self.board[y][x].is_some() {
            return;
        }
        if self.is_cross_turn {
            self.board[y][x] = Some(TileState::Cross)
        } else {
            self.board[y][x] = Some(TileState::Nought)
        }
        self.is_cross_turn = !self.is_cross_turn;
        proof {
            let mark = Some(if old(self).is_cross_turn { TileState::Cross } else { TileState::Nought });
            let before = grid_of(old(self).board);
            assert(grid_of(self.board)[y as int] =~= before[y as int].update(x as int, mark));
            assert(grid_of(self.board) =~= before.update(y as int, before[y as int].update(x as int, mark)));
        }
    }

    /// Whether `state` fills one of the eight lines of the board.
    fn check_winner(&mut self, state: &Option<TileState>) -> (is_winner: bool)
        ensures
            *final(self) == *old(self),
            is_winner == three_in_a_line(grid_of(old(self).board), *state),
    {
        let ghost g = grid_of(self.board);
        let mut is_winner = false;

        let mut index: usize = 0;
        while index < 3
            invariant
                index <= 3,
                g == grid_of(self.board),
                is_winner == exists|i: int|
                    0 <= i < index && #[trigger] row_or_column_full(g, *state, i),
            decreases 3 - index,
        {
            // the row
            if &self.board[index][0] == state && &self.board[index][1] == state
                && &self.board[index][2] == state {
                is_winner = true
            }
            // the column
            if &self.board[0][index] == state && &self.board[1][index] == state
                && &self.board[2][index] == state {
                is_winner = true
            }
            proof {
                let i = index as int;
                let b = self.board;
                assert(row_or_column_full(g, *state, i) <==> (b[i][0] == *state && b[i][1]
                    == *state && b[i][2] == *state) || (b[0][i] == *state && b[1][i] == *state
                    && b[2][i] == *state));
            }
            index += 1;
        }
        // the diagonals
        if (&self.board[0][0] == state && &self.board[1][1] == state && &self.board[2][2]
            == state) || (&self.board[2][0] == state && &self.board[1][1] == state
            && &self.board[0][2] == state) {
            is_winner = true
        }
        is_winner
    }

    /// Whether either player fills one of the eight lines of the board.
    pub fn has_won(&mut self) -> (r: bool)
        ensures
            *final(self) == *old(self),
            r == (three_in_a_line(grid_of(old(self).board), Some(TileState::Cross))
                || three_in_a_line(grid_of(old(self).board), Some(TileState::Nought))),
    {
        self.check_winner(&Some(TileState::Cross)) || self.check_winner(&Some(TileState::Nought))
    }
}

} // verus!
