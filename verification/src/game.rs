//! The `Game` entity and its two operations, `setup_game` and `play`.
//!
//! The board is a fixed 3×3 grid of tri-state cells; a cell, once set,
//! is never cleared or overwritten. The whole move transition is captured
//! by the spec functions [`Game::spec_move_error`] (which error, if any,
//! a move is rejected with) and [`Game::spec_next`] (the state after an
//! accepted move), which the contract of [`Game::play`] ties exactly to
//! the executable code.

use vstd::prelude::*;

verus! {

use vstd::array::spec_array_update;

/// The mark a player places; player index 0 always plays `X`,
/// player index 1 always plays `O`.
#[derive(Clone, Copy, PartialEq, Eq, Structural, Debug)]
pub enum Sign {
    X,
    O,
}

/// An opaque, equality-comparable player identifier.
#[derive(Clone, Copy, PartialEq, Eq, Structural, Debug)]
pub struct Player {
    pub id: u64,
}

/// The phase of a match: still running, drawn, or won by one player.
/// `Tie` and `Won` are terminal: no further move is accepted.
#[derive(Clone, Copy, PartialEq, Eq, Structural, Debug)]
pub enum GameState {
    Active,
    Tie,
    Won { winner: Player },
}

impl Default for GameState {
    /// A freshly created game is still running.
    fn default() -> (s: Self)
        ensures
            s == GameState::Active,
    {
        GameState::Active
    }
}

/// A board coordinate; each of `row` and `col` is meant to be in `[0, 3)`,
/// and a move outside that range is rejected, never dereferenced.
#[derive(Clone, Copy, PartialEq, Eq, Structural, Debug)]
pub struct Tile {
    pub row: u8,
    pub col: u8,
}

/// The four deterministic rejections of an invalid move.
#[derive(Clone, Copy, PartialEq, Eq, Structural, Debug)]
pub enum TicTactoeError {
    TileOutOfBounds,
    TileAlreadySet,
    GameAlreadyOver,
    NotPlayersTurn,
}

/// The 3×3 grid; `None` is an empty cell.
pub type Board = [[Option<Sign>; 3]; 3];

/// The cell of `b` at row `r`, column `c`.
pub open spec fn spec_cell(b: Board, r: int, c: int) -> Option<Sign> {
    b[r][c]
}

/// Row `r` of `b` is filled with `s`.
pub open spec fn spec_row_won(b: Board, r: int, s: Sign) -> bool {
    &&& spec_cell(b, r, 0) == Some(s)
    &&& spec_cell(b, r, 1) == Some(s)
    &&& spec_cell(b, r, 2) == Some(s)
}

/// Column `c` of `b` is filled with `s`.
pub open spec fn spec_col_won(b: Board, c: int, s: Sign) -> bool {
    &&& spec_cell(b, 0, c) == Some(s)
    &&& spec_cell(b, 1, c) == Some(s)
    &&& spec_cell(b, 2, c) == Some(s)
}

/// The main diagonal of `b` is filled with `s`.
pub open spec fn spec_main_diag_won(b: Board, s: Sign) -> bool {
    &&& spec_cell(b, 0, 0) == Some(s)
    &&& spec_cell(b, 1, 1) == Some(s)
    &&& spec_cell(b, 2, 2) == Some(s)
}

/// The anti-diagonal of `b` is filled with `s`.
pub open spec fn spec_anti_diag_won(b: Board, s: Sign) -> bool {
    &&& spec_cell(b, 0, 2) == Some(s)
    &&& spec_cell(b, 1, 1) == Some(s)
    &&& spec_cell(b, 2, 0) == Some(s)
}

/// One of the 8 fixed lines of `b` — 3 rows, 3 columns, 2 diagonals —
/// is filled with `s`.
pub open spec fn spec_board_wins(b: Board, s: Sign) -> bool {
    ||| spec_row_won(b, 0, s)
    ||| spec_row_won(b, 1, s)
    ||| spec_row_won(b, 2, s)
    ||| spec_col_won(b, 0, s)
    ||| spec_col_won(b, 1, s)
    ||| spec_col_won(b, 2, s)
    ||| spec_main_diag_won(b, s)
    ||| spec_anti_diag_won(b, s)
}

/// Every one of the 9 cells of `b` is occupied.
pub open spec fn spec_board_full(b: Board) -> bool {
    &&& spec_cell(b, 0, 0) is Some
    &&& spec_cell(b, 0, 1) is Some
    &&& spec_cell(b, 0, 2) is Some
    &&& spec_cell(b, 1, 0) is Some
    &&& spec_cell(b, 1, 1) is Some
    &&& spec_cell(b, 1, 2) is Some
    &&& spec_cell(b, 2, 0) is Some
    &&& spec_cell(b, 2, 1) is Some
    &&& spec_cell(b, 2, 2) is Some
}

/// `b` with the cell at `(r, c)` set to `s` and every other cell unchanged.
pub open spec fn spec_board_set(b: Board, r: int, c: int, s: Sign) -> Board {
    spec_array_update(b, r, spec_array_update(b[r], c, Some(s)))
}

/// The sign the player moving at turn index `turn` places.
pub open spec fn spec_sign_of(turn: u8) -> Sign {
    if turn == 0 {
        Sign::X
    } else {
        Sign::O
    }
}

/// The sole entity: two distinct players, whose turn it is, the board,
/// and the phase of the match.
#[derive(Clone, Copy, PartialEq, Eq, Debug)]
pub struct Game {
    pub players: [Player; 2],
    pub turn: u8,
    pub board: Board,
    pub state: GameState,
}

impl Game {
    /// The turn index is a player index and the two players are distinct.
    pub open spec fn well_formed(self) -> bool {
        &&& self.turn < 2
        &&& self.players[0] != self.players[1]
    }

    /// The player whose turn it is.
    pub open spec fn spec_current_player(self) -> Player {
        self.players[self.turn as int]
    }

    /// A fresh match between `p1` (moving first, as `X`) and `p2`:
    /// empty board, still running.
    pub open spec fn is_initial(self, p1: Player, p2: Player) -> bool {
        &&& self.players[0] == p1
        &&& self.players[1] == p2
        &&& self.turn == 0
        &&& self.state is Active
        &&& forall|r: int, c: int|
            0 <= r < 3 && 0 <= c < 3 ==> #[trigger] spec_cell(self.board, r, c) is None
    }

    /// The rejection, if any, of a move by `player` at `tile`, in
    /// validation order: a finished match rejects every move; then the
    /// caller must be the player whose turn it is; then the coordinates
    /// must be on the board; then the target cell must be empty.
    pub open spec fn spec_move_error(self, player: Player, tile: Tile) -> Option<TicTactoeError> {
        if !(self.state is Active) {
            Some(TicTactoeError::GameAlreadyOver)
        } else if player != self.spec_current_player() {
            Some(TicTactoeError::NotPlayersTurn)
        } else if !(tile.row < 3 && tile.col < 3) {
            Some(TicTactoeError::TileOutOfBounds)
        } else if spec_cell(self.board, tile.row as int, tile.col as int) is Some {
            Some(TicTactoeError::TileAlreadySet)
        } else {
            None
        }
    }

    /// A move by `player` at `tile` passes all four validations.
    pub open spec fn accepts(self, player: Player, tile: Tile) -> bool {
        self.spec_move_error(player, tile) is None
    }

    /// The game after an accepted move at `tile`: the mover's sign is
    /// placed; if that completes a line the mover has won, else if the
    /// board is now full the match is a tie, else the turn passes to the
    /// other player. On a win or tie the turn index is left as it is.
    pub open spec fn spec_next(self, tile: Tile) -> Game {
        let s = spec_sign_of(self.turn);
        let b = spec_board_set(self.board, tile.row as int, tile.col as int, s);
        if spec_board_wins(b, s) {
            Game {
                players: self.players,
                turn: self.turn,
                board: b,
                state: GameState::Won { winner: self.spec_current_player() },
            }
        } else if spec_board_full(b) {
            Game { players: self.players, turn: self.turn, board: b, state: GameState::Tie }
        } else {
            Game {
                players: self.players,
                turn: ((self.turn + 1) % 2) as u8,
                board: b,
                state: GameState::Active,
            }
        }
    }

    /// The identifier of the player whose turn it is.
    pub fn current_player(&self) -> (p: Player)
        requires
            self.well_formed(),
        ensures
            p == self.spec_current_player(),
    {
        self.players[self.turn as usize]
    }

    /// Passes the turn to the other player.
    pub fn switch_turn(&mut self)
        requires
            old(self).turn < 2,
        ensures
            final(self).turn == (old(self).turn + 1) % 2,
            final(self).players == old(self).players,
            final(self).board == old(self).board,
            final(self).state == old(self).state,
    {
        self.turn = (self.turn + 1) % 2;
    }

    /// The sign the player whose turn it is would place.
    pub fn players_sign(&self) -> (s: Sign)
        ensures
            s == spec_sign_of(self.turn),
    {
        if self.turn == 0 {
            Sign::X
        } else {
            Sign::O
        }
    }

    /// Applies the move of `player` at `tile`. A move that fails any of
    /// the four validations returns its error and leaves the game
    /// completely unchanged; an accepted move places the mover's sign,
    /// evaluates the win and tie conditions, and advances the turn only
    /// when the match is still running.
    pub fn play(&mut self, player: Player, tile: &Tile) -> (r: Result<(), TicTactoeError>)
        requires
            old(self).well_formed(),
        ensures
            final(self).well_formed(),
            old(self).spec_move_error(player, *tile) matches Some(e) ==> r == Err::<
                (),
                TicTactoeError,
            >(e) && *final(self) == *old(self),
            old(self).accepts(player, *tile) ==> r == Ok::<(), TicTactoeError>(()) && *final(self)
                == old(self).spec_next(*tile),
    {
        if self.state != GameState::Active {
            return Err(TicTactoeError::GameAlreadyOver);
        }
        let current = self.players[self.turn as usize];
        if player != current {
            return Err(TicTactoeError::NotPlayersTurn);
        }
        let row = tile.row as usize;
        let col = tile.col as usize;
        if !(row < 3 && col < 3) {
            return Err(TicTactoeError::TileOutOfBounds);
        }
        if self.board[row][col].is_some() {
            return Err(TicTactoeError::TileAlreadySet);
        }

        let sign = self.players_sign();
        let mut board_row = self.board[row];
        board_row[col] = Some(sign);
        self.board[row] = board_row;
        proof {
            let b0 = old(self).board;
            let inner = spec_array_update(b0[row as int], col as int, Some(sign));
            assert(board_row =~= inner);
            assert(self.board =~= spec_array_update(b0, row as int, inner));
            assert(self.board == spec_board_set(b0, row as int, col as int, sign));
        }

        if self.is_win_condition(sign) {
            self.state = GameState::Won { winner: current };
            return Ok(());
        }

        if self.is_tie_condition() {
            self.state = GameState::Tie;
            return Ok(());
        }

        self.switch_turn();
        Ok(())
    }

    /// Whether the cell at `(row, col)` holds `sign`.
    fn cell_is(&self, row: usize, col: usize, sign: Sign) -> (r: bool)
        requires
            row < 3,
            col < 3,
        ensures
            r == (spec_cell(self.board, row as int, col as int) == Some(sign)),
    {
        match self.board[row][col] {
            Some(s) => s == sign,
            None => false,
        }
    }

    /// Whether some line of the board — a row, a column, or a diagonal —
    /// is filled with `sign`. All 8 lines are checked.
    pub fn is_win_condition(&self, sign: Sign) -> (r: bool)
        ensures
            r == spec_board_wins(self.board, sign),
    {
        // row victory
        if self.cell_is(0, 0, sign) && self.cell_is(0, 1, sign) && self.cell_is(0, 2, sign) {
            return true;
        }
        if self.cell_is(1, 0, sign) && self.cell_is(1, 1, sign) && self.cell_is(1, 2, sign) {
            return true;
        }
        if self.cell_is(2, 0, sign) && self.cell_is(2, 1, sign) && self.cell_is(2, 2, sign) {
            return true;
        }
        // column victory
        if self.cell_is(0, 0, sign) && self.cell_is(1, 0, sign) && self.cell_is(2, 0, sign) {
            return true;
        }
        if self.cell_is(0, 1, sign) && self.cell_is(1, 1, sign) && self.cell_is(2, 1, sign) {
            return true;
        }
        if self.cell_is(0, 2, sign) && self.cell_is(1, 2, sign) && self.cell_is(2, 2, sign) {
            return true;
        }
        // diagonal victory
        if self.cell_is(0, 0, sign) && self.cell_is(1, 1, sign) && self.cell_is(2, 2, sign) {
            return true;
        }
        if self.cell_is(0, 2, sign) && self.cell_is(1, 1, sign) && self.cell_is(2, 0, sign) {
            return true;
        }
        false
    }

    /// Whether every cell of the board is occupied. Evaluated only after
    /// the win check: a full board that completes a line is a win, not a tie.
    pub fn is_tie_condition(&self) -> (r: bool)
        ensures
            r == spec_board_full(self.board),
    {
        self.board[0][0].is_some() && self.board[0][1].is_some() && self.board[0][2].is_some()
            && self.board[1][0].is_some() && self.board[1][1].is_some()
            && self.board[1][2].is_some() && self.board[2][0].is_some()
            && self.board[2][1].is_some() && self.board[2][2].is_some()
    }
}

/// Starts a fresh match between two distinct players: `player_one` moves
/// first and plays `X`, the turn index is 0, the board is empty, and the
/// match is running.
pub fn setup_game(player_one: Player, player_two: Player) -> (g: Game)
    requires
        player_one != player_two,
    ensures
        g.is_initial(player_one, player_two),
        g.well_formed(),
{
    let mut players: [Player; 2] = [player_one; 2];
    players[1] = player_two;
    let board: Board = [[None; 3]; 3];
    let g = Game { players, turn: 0, board, state: GameState::Active };
    proof {
        assert forall|r: int, c: int|
            0 <= r < 3 && 0 <= c < 3 implies #[trigger] spec_cell(g.board, r, c) is None by {
            assert(g.board[r] == g.board@[r]);
            assert(g.board[r][c] == g.board[r]@[c]);
        }
    }
    g
}

/// Applies the move of `player` at `tile` to `game`; the move-level
/// entry point around [`Game::play`].
pub fn play(game: &mut Game, player: Player, tile: &Tile) -> (r: Result<(), TicTactoeError>)
    requires
        old(game).well_formed(),
    ensures
        final(game).well_formed(),
        old(game).spec_move_error(player, *tile) matches Some(e) ==> r == Err::<
            (),
            TicTactoeError,
        >(e) && *final(game) == *old(game),
        old(game).accepts(player, *tile) ==> r == Ok::<(), TicTactoeError>(()) && *final(game)
            == old(game).spec_next(*tile),
{
    game.play(player, tile)
}

} // verus!
