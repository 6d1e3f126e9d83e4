//! The game state engine: the board, the cursor, whose turn it is, and the
//! evaluation of a finished game.
use vstd::prelude::*;
use crate::grid::{all_marked, at, grid_of, row_or_column_full, three_in_a_line};

verus! {

/// Three rows of three cells; a cell is empty or holds a player's mark.
pub type Board = [[Option<Player>; 3]; 3];

/// A player, and the mark that player places on the board.
#[derive(PartialEq, Eq, Structural, Clone, Copy, Debug, Default)]
pub enum Player {
    #[default]
    Cross,
    Nought,
}

impl Player {
    /// The player who moves after `self`.
    pub open spec fn other(self) -> Player {
        match self {
            Player::Cross => Player::Nought,
            Player::Nought => Player::Cross,
        }
    }
}

/// Whether `state` fills one of the eight lines of `board`.
pub fn check_winner(board: &Board, state: Option<Player>) -> (is_winner: bool)
    ensures
        is_winner == three_in_a_line(grid_of(*board), state),
{
    let ghost g = grid_of(*board);
    let mut is_winner = false;

    let mut index: usize = 0;
    while index < 3
        invariant
            index <= 3,
            g == grid_of(*board),
            is_winner == exists|i: int| 0 <= i < index && #[trigger] row_or_column_full(g, state, i),
        decreases 3 - index,
    {
        // the row
        if board[index][0] == state && board[index][1] == state && board[index][2] == state {
            is_winner = true
        }
        // the column
        if board[0][index] == state && board[1][index] == state && board[2][index] == state {
            is_winner = true
        }
        proof {
            let i = index as int;
            assert(row_or_column_full(g, state, i) <==> (board[i][0] == state && board[i][1]
                == state && board[i][2] == state) || (board[0][i] == state && board[1][i] == state
                && board[2][i] == state));
        }
        index += 1;
    }
    // the diagonals
    if (board[0][0] == state && board[1][1] == state && board[2][2] == state) || (board[2][0]
        == state && board[1][1] == state && board[0][2] == state) {
        is_winner = true
    }
    is_winner
}

/// A cell of the board, by column `x` and row `y`.
pub struct BoardCordinate {
    pub x: usize,
    pub y: usize,
}

impl BoardCordinate {
    /// Both coordinates lie on the board.
    pub open spec fn in_bounds(&self) -> bool {
        self.x < 3 && self.y < 3
    }
}

impl Default for BoardCordinate {
    /// The centre cell.
    fn default() -> (r: Self)
        ensures
            r.x == 1,
            r.y == 1,
    {
        BoardCordinate { x: 1, y: 1 }
    }
}

/// How a game ended.
#[derive(PartialEq, Eq, Structural, Clone, Copy, Debug)]
pub enum FinishedState {
    Draw,
    Won(Player),
}

impl FinishedState {
    /// A win by `player`, or a draw where there is none.
    pub open spec fn spec_new(player: Option<Player>) -> FinishedState {
        match player {
            Some(p) => FinishedState::Won(p),
            None => FinishedState::Draw,
        }
    }

    /// A win by `player`, or a draw where there is no winner.
    fn new(player: Option<Player>) -> (r: Self)
        ensures
            r == Self::spec_new(player),
    {
        match player {
            Some(player) => FinishedState::Won(player),
            None => FinishedState::Draw,
        }
    }
}

/// The outcome of `board`: a win for Cross, else a win for Nought, else a draw
/// when every cell is marked, else none while the game goes on.
pub open spec fn outcome(board: Seq<Seq<Option<Player>>>) -> Option<FinishedState> {
    if three_in_a_line(board, Some(Player::Cross)) {
        Some(FinishedState::Won(Player::Cross))
    } else if three_in_a_line(board, Some(Player::Nought)) {
        Some(FinishedState::Won(Player::Nought))
    } else if all_marked(board) {
        Some(FinishedState::Draw)
    } else {
        None
    }
}

/// A direction in which the cursor moves.
#[derive(PartialEq, Eq, Structural, Clone, Copy, Debug)]
pub enum Direction {
    Up,
    Down,
    Left,
    Right,
}

/// An input that the engine acts on.
#[derive(PartialEq, Eq, Structural, Clone, Copy, Debug)]
pub enum Command {
    MoveCursor(Direction),
    PlaceMark,
}

/// The mathematical state of a game.
pub struct GameView {
    pub board: Seq<Seq<Option<Player>>>,
    pub x: int,
    pub y: int,
    pub turn: Player,
}

/// `n + 1` modulo 3, for `n` in 0..3.
pub open spec fn next3(n: int) -> int {
    if n == 2 { 0 } else { n + 1 }
}

/// `n - 1` modulo 3, for `n` in 0..3.
pub open spec fn prev3(n: int) -> int {
    if n == 0 { 2 } else { n - 1 }
}

impl GameView {
    /// A fresh game: an empty board, the cursor at the centre, Cross to move.
    pub open spec fn initial() -> GameView {
        GameView {
            board: Seq::new(3, |r: int| Seq::new(3, |c: int| None)),
            x: 1,
            y: 1,
            turn: Player::Cross,
        }
    }

    /// The board has three rows of three cells, and the cursor is on it.
    pub open spec fn wf(self) -> bool {
        &&& self.board.len() == 3
        &&& forall|r: int| 0 <= r < 3 ==> (#[trigger] self.board[r]).len() == 3
        &&& 0 <= self.x < 3
        &&& 0 <= self.y < 3
    }

    /// The cell under the cursor.
    pub open spec fn active(self) -> Option<Player> {
        at(self.board, self.y, self.x)
    }

    /// The cursor moved one step, wrapping round at the edges.
    pub open spec fn move_cursor(self, d: Direction) -> GameView {
        match d {
            Direction::Up => GameView { y: prev3(self.y), ..self },
            Direction::Down => GameView { y: next3(self.y), ..self },
            Direction::Left => GameView { x: prev3(self.x), ..self },
            Direction::Right => GameView { x: next3(self.x), ..self },
        }
    }

    /// The mark of the player to move placed under the cursor and the turn
    /// passed on; unchanged where that cell is already marked.
    pub open spec fn place(self) -> GameView {
        if self.active() is None {
            GameView {
                board: self.board.update(
                    self.y,
                    self.board[self.y].update(self.x, Some(self.turn)),
                ),
                turn: self.turn.other(),
                ..self
            }
        } else {
            self
        }
    }

    /// The state after `c`.
    #[verifier::opaque]
    pub open spec fn step(self, c: Command) -> GameView {
        match c {
            Command::MoveCursor(d) => self.move_cursor(d),
            Command::PlaceMark => self.place(),
        }
    }

    /// The state after the commands `cs`, in order.
    pub open spec fn run(self, cs: Seq<Command>) -> GameView
        decreases cs.len(),
    {
        if cs.len() == 0 {
            self
        } else {
            self.run(cs.drop_last()).step(cs.last())
        }
    }

    /// How many of the commands `cs`, run from `self`, placed a mark.
    pub open spec fn accepted(self, cs: Seq<Command>) -> nat
        decreases cs.len(),
    {
        if cs.len() == 0 {
            0
        } else {
            let before = self.run(cs.drop_last());
            self.accepted(cs.drop_last()) + if cs.last() == Command::PlaceMark
                && before.active() is None {
                1nat
            } else {
                0nat
            }
        }
    }
}

/// A game in progress.
pub struct Game {
    pub board: Board,
    pub active_tile: BoardCordinate,
    pub player_turn: Player,
}

impl View for Game {
    type V = GameView;

    open spec fn view(&self) -> GameView {
        GameView {
            board: grid_of(self.board),
            x: self.active_tile.x as int,
            y: self.active_tile.y as int,
            turn: self.player_turn,
        }
    }
}

impl Default for Game {
    /// A fresh game.
    fn default() -> (g: Self)
        ensures
            g@ =~~= GameView::initial(),
            g.wf(),
    {
        let g = Game {
            board: [[None, None, None], [None, None, None], [None, None, None]],
            active_tile: BoardCordinate::default(),
            player_turn: Player::Cross,
        };
        assert(grid_of(g.board) =~~= GameView::initial().board);
        g
    }
}

impl Game {
    /// The cursor lies on the board.
    pub open spec fn wf(&self) -> bool {
        self.active_tile.in_bounds()
    }

    /// Place the mark of the player to move on the cell under the cursor and
    /// pass the turn; a cell that is already marked is left as it is, and so is
    /// the turn.
    pub fn place_mark(&mut self)
        requires
            old(self).wf(),
        ensures
            final(self).wf(),
            final(self)@ == old(self)@.place(),
    {
        let x = self.active_tile.x;
        let y = self.active_tile.y;
        let ghost before = self@;
        match self.board[y][x] {
            None => match self.player_turn {
                Player::Cross => {
                    self.board[y][x] = Some(Player::Cross);
                    self.player_turn = Player::Nought;
                },
                Player::Nought => {
                    self.board[y][x] = Some(Player::Nought);
                    self.player_turn = Player::Cross;
                },
            },
            Some(_) => {},
        }
        proof {
            if before.active() is None {
                let g = grid_of(self.board);
                assert(g[y as int] =~= before.board[y as int].update(x as int, Some(before.turn)));
                assert(g =~= before.board.update(
                    y as int,
                    before.board[y as int].update(x as int, Some(before.turn)),
                ));
            }
        }
    }

    /// Move the cursor one cell in `direction`, wrapping round at the edges.
    pub fn move_cursor(&mut self, direction: Direction)
        requires
            old(self).wf(),
        ensures
            final(self).wf(),
            final(self)@ == old(self)@.move_cursor(direction),
            final(self).board == old(self).board,
            final(self).player_turn == old(self).player_turn,
    {
        match direction {
            Direction::Up => self.active_tile.y = (self.active_tile.y + 3 - 1) % 3,
            Direction::Down => self.active_tile.y = (self.active_tile.y + 1) % 3,
            Direction::Left => self.active_tile.x = (self.active_tile.x + 3 - 1) % 3,
            Direction::Right => self.active_tile.x = (self.active_tile.x + 1) % 3,
        }
    }

    /// Act on one command.
    pub fn apply(&mut self, command: Command)
        requires
            old(self).wf(),
        ensures
            final(self).wf(),
            final(self)@ == old(self)@.step(command),
    {
        proof {
            reveal(GameView::step);
        }
        match command {
            Command::MoveCursor(direction) => self.move_cursor(direction),
            Command::PlaceMark => self.place_mark(),
        }
    }

    /// How the game stands: a win for Cross, else a win for Nought, else a
    /// draw where every cell is marked, else `None` while it goes on.
    pub fn check_finish_state(&mut self) -> (r: Option<FinishedState>)
        ensures
            *final(self) == *old(self),
            r == outcome(old(self)@.board),
    {
        if check_winner(&self.board, Some(Player::Cross)) {
            Some(FinishedState::new(Some(Player::Cross)))
        } else if check_winner(&self.board, Some(Player::Nought)) {
            Some(FinishedState::new(Some(Player::Nought)))
        } else if board_full(&self.board) {
            Some(FinishedState::new(None))
        } else {
            None
        }
    }
}

/// Whether every cell of `board` is marked.
pub fn board_full(board: &Board) -> (r: bool)
    ensures
        r == all_marked(grid_of(*board)),
{
    let mut row: usize = 0;
    while row < 3
        invariant
            row <= 3,
            forall|r: int, c: int|
                0 <= r < row && 0 <= c < 3 ==> (#[trigger] at(grid_of(*board), r, c)) is Some,
        decreases 3 - row,
    {
        if board[row][0].is_none() || board[row][1].is_none() || board[row][2].is_none() {
            proof {
                let g = grid_of(*board);
                let r = row as int;
                assert(at(g, r, 0) is None || at(g, r, 1) is None || at(g, r, 2) is None);
            }
            return false;
        }
        row += 1;
    }
    true
}

/// 1 for a marked cell, 0 for an empty one.
pub open spec fn filled(c: Option<Player>) -> nat {
    if c is Some { 1 } else { 0 }
}

/// The number of marked cells in row `r`.
pub open spec fn row_marks(board: Seq<Seq<Option<Player>>>, r: int) -> nat {
    filled(at(board, r, 0)) + filled(at(board, r, 1)) + filled(at(board, r, 2))
}

/// The number of marked cells on the board.
pub open spec fn marks(board: Seq<Seq<Option<Player>>>) -> nat {
    row_marks(board, 0) + row_marks(board, 1) + row_marks(board, 2)
}

/// One command keeps the state well formed; it adds a mark and passes the
/// turn when it places on an empty cell, and otherwise leaves both alone.
pub proof fn lemma_step(g: GameView, c: Command)
    requires
        g.wf(),
    ensures
        g.step(c).wf(),
        c == Command::PlaceMark && g.active() is None ==> {
            &&& marks(g.step(c).board) == marks(g.board) + 1
            &&& g.step(c).turn == g.turn.other()
        },
        !(c == Command::PlaceMark && g.active() is None) ==> {
            &&& marks(g.step(c).board) == marks(g.board)
            &&& g.step(c).turn == g.turn
        },
{
    reveal(GameView::step);
    if c == Command::PlaceMark && g.active() is None {
        let h = g.place();
        assert forall|r: int| 0 <= r < 3 implies (#[trigger] h.board[r]).len() == 3 by {
            if r != g.y {
                assert(g.board[r].len() == 3);
            }
        }
        assert(forall|r: int| 0 <= r < 3 && r != g.y ==> h.board[r] == g.board[r]);
        assert(forall|col: int| 0 <= col < 3 && col != g.x ==> h.board[g.y][col] == g.board[g.y][col]);
        assert(row_marks(h.board, g.y) == row_marks(g.board, g.y) + 1);
    } else if c == Command::PlaceMark {
        assert(g.step(c) == g);
    }
}

/// Adding one changes the parity.
proof fn lemma_parity_flips(n: nat)
    ensures
        ((n + 1) % 2 == 0) == (n % 2 != 0),
{
}

/// Running commands from a well-formed state keeps it well formed, adds one
/// mark for each accepted placement, and passes the turn once for each.
pub proof fn lemma_run(g: GameView, cs: Seq<Command>)
    requires
        g.wf(),
    ensures
        g.run(cs).wf(),
        marks(g.run(cs).board) == marks(g.board) + g.accepted(cs),
        g.run(cs).turn == if g.accepted(cs) % 2 == 0 { g.turn } else { g.turn.other() },
    decreases cs.len(),
{
    if cs.len() > 0 {
        let prefix = cs.drop_last();
        let before = g.run(prefix);
        let n = g.accepted(prefix);
        lemma_run(g, prefix);
        lemma_step(before, cs.last());
        assert(g.run(cs) == before.step(cs.last()));
        if cs.last() == Command::PlaceMark && before.active() is None {
            assert(g.accepted(cs) == n + 1);
            lemma_parity_flips(n);
        } else {
            assert(g.accepted(cs) == n);
        }
    }
}

/// Turns alternate: after any sequence of commands from a fresh game, Cross
/// is to move when the number of accepted placements is even and Nought when
/// it is odd; that number is the number of marks on the board.
pub proof fn lemma_turn_alternation(cs: Seq<Command>)
    ensures
        GameView::initial().run(cs).turn == if GameView::initial().accepted(cs) % 2 == 0 {
            Player::Cross
        } else {
            Player::Nought
        },
        marks(GameView::initial().run(cs).board) == GameView::initial().accepted(cs),
{
    let g = GameView::initial();
    assert(marks(g.board) == 0);
    lemma_run(g, cs);
}

/// Placing twice without moving the cursor: where the cell under the cursor
/// is empty, the first placement adds exactly one mark, the mover's, and passes
/// the turn; the second changes nothing.
pub proof fn lemma_place_twice(g: GameView)
    requires
        g.wf(),
        g.active() is None,
    ensures
        g.place().place() == g.place(),
        g.place().active() == Some(g.turn),
        marks(g.place().board) == marks(g.board) + 1,
        g.place().turn == g.turn.other(),
{
    lemma_step(g, Command::PlaceMark);
    reveal(GameView::step);
}

/// A fresh game is under way: no line is filled and the board is not full.
pub proof fn lemma_fresh_game_ongoing()
    ensures
        outcome(GameView::initial().board) == None::<FinishedState>,
{
    let b = GameView::initial().board;
    assert(!all_marked(b)) by {
        assert(at(b, 0, 0) is None);
    }
    assert(!three_in_a_line(b, Some(Player::Cross))) by {
        assert forall|i: int| 0 <= i < 3 implies !#[trigger] row_or_column_full(b, Some(Player::Cross), i) by {
            assert(at(b, i, 0) is None);
        }
    }
    assert(!three_in_a_line(b, Some(Player::Nought))) by {
        assert forall|i: int| 0 <= i < 3 implies !#[trigger] row_or_column_full(b, Some(Player::Nought), i) by {
            assert(at(b, i, 0) is None);
        }
    }
}

/// The glyph shown for a cell: "X" for Cross, "O" for Nought, nothing when empty.
pub fn cell_glyph(cell: Option<Player>) -> (r: &'static str)
    ensures
        r@ == match cell {
            None => ""@,
            Some(Player::Cross) => "X"@,
            Some(Player::Nought) => "O"@,
        },
{
    match cell {
        None => "",
        Some(Player::Nought) => "O",
        Some(Player::Cross) => "X",
    }
}

impl FinishedState {
    /// The line shown once the game is over: it names the winner, or
    /// announces a draw.
    pub fn message(&self) -> (r: &'static str)
        ensures
            r@ == match *self {
                FinishedState::Won(Player::Cross) => "X is the winner. <q> to exit"@,
                FinishedState::Won(Player::Nought) => "O is the winner. <q> to exit"@,
                FinishedState::Draw => "It is a draw. <q> to exit"@,
            },
    {
        match self {
            FinishedState::Won(Player::Cross) => "X is the winner. <q> to exit",
            FinishedState::Won(Player::Nought) => "O is the winner. <q> to exit",
            FinishedState::Draw => "It is a draw. <q> to exit",
        }
    }
}

} // verus!
