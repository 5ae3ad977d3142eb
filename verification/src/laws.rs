//! Proved laws of the engine.
//!
//! Each law is stated over the spec-level move transition — the pair
//! [`Game::spec_move_error`] and [`Game::spec_next`] — which the contract
//! of [`Game::play`] ties exactly to the executable code: a rejected move
//! returns precisely the error `spec_move_error` gives and leaves the
//! game unchanged, and an accepted move leaves the game at `spec_next`.
//! A whole match is a fold of `spec_next` over a sequence of plies,
//! [`spec_run`].

use vstd::prelude::*;

verus! {

use crate::game::Game;
use crate::game::GameState;
use crate::game::Player;
use crate::game::Sign;
use crate::game::TicTactoeError;
use crate::game::Tile;
use crate::game::Board;
use crate::game::spec_board_full;
use crate::game::spec_board_set;
use crate::game::spec_board_wins;
use crate::game::spec_cell;
use crate::game::spec_sign_of;
use vstd::array::spec_array_update;

/// The game after the plies of `moves` have been applied in order,
/// each through the move transition of an accepted play.
pub open spec fn spec_run(g: Game, moves: Seq<(Player, Tile)>) -> Game
    decreases moves.len(),
{
    if moves.len() == 0 {
        g
    } else {
        spec_run(g.spec_next(moves[0].1), moves.subrange(1, moves.len() as int))
    }
}

/// Every ply of `moves`, applied in order from `g`, passes all four
/// validations of the game it meets.
pub open spec fn all_accepted(g: Game, moves: Seq<(Player, Tile)>) -> bool
    decreases moves.len(),
{
    moves.len() == 0 || (g.accepts(moves[0].0, moves[0].1) && all_accepted(
        g.spec_next(moves[0].1),
        moves.subrange(1, moves.len() as int),
    ))
}

/// Setting one cell changes that cell to the given sign and no other.
pub proof fn lemma_board_set_cells(b: Board, r: int, c: int, s: Sign)
    requires
        0 <= r < 3,
        0 <= c < 3,
    ensures
        spec_cell(spec_board_set(b, r, c, s), r, c) == Some(s),
        forall|i: int, j: int|
            0 <= i < 3 && 0 <= j < 3 && !(i == r && j == c) ==> #[trigger] spec_cell(
                spec_board_set(b, r, c, s),
                i,
                j,
            ) == spec_cell(b, i, j),
{
    let inner = spec_array_update(b[r], c, Some(s));
    let b2 = spec_board_set(b, r, c, s);
    assert(b2@ == b@.update(r, inner));
    assert(inner@ == b[r]@.update(c, Some(s)));
    assert forall|i: int, j: int|
        0 <= i < 3 && 0 <= j < 3 && !(i == r && j == c) implies #[trigger] spec_cell(b2, i, j)
        == spec_cell(b, i, j) by {
        if i == r {
            assert(b2[i] == inner);
            assert(inner[j] == b[r][j]);
        } else {
            assert(b2[i] == b[i]);
        }
    }
}

/// An accepted move keeps the mover's turn index a player index and the
/// players themselves unchanged, so well-formedness is an invariant of
/// the move transition.
pub proof fn lemma_next_well_formed(g: Game, player: Player, tile: Tile)
    requires
        g.well_formed(),
        g.accepts(player, tile),
    ensures
        g.spec_next(tile).well_formed(),
        g.spec_next(tile).players == g.players,
{
}

/// Alternation, one game at a time: after `k` accepted plies from a
/// well-formed game `g`, the match is still running, the players are
/// unchanged, the turn index is `(g.turn + k) % 2`, and ply `k` is made
/// by the player at that index.
pub proof fn lemma_run_alternation(g: Game, moves: Seq<(Player, Tile)>, k: int)
    requires
        g.well_formed(),
        all_accepted(g, moves),
        0 <= k < moves.len(),
    ensures
        spec_run(g, moves.subrange(0, k)).well_formed(),
        spec_run(g, moves.subrange(0, k)).players == g.players,
        spec_run(g, moves.subrange(0, k)).state is Active,
        spec_run(g, moves.subrange(0, k)).turn == (g.turn + k) % 2,
        moves[k].0 == g.players[(g.turn + k) % 2],
    decreases k,
{
    if k == 0 {
        assert(moves.subrange(0, 0).len() == 0);
        assert(spec_run(g, moves.subrange(0, 0)) == g);
        assert(g.accepts(moves[0].0, moves[0].1));
        assert((g.turn + 0) % 2 == g.turn);
    } else {
        let g1 = g.spec_next(moves[0].1);
        let tail = moves.subrange(1, moves.len() as int);
        assert(g.accepts(moves[0].0, moves[0].1) && all_accepted(g1, tail));
        lemma_next_well_formed(g, moves[0].0, moves[0].1);
        // ply k exists in the tail, so the game right after ply 0 still
        // accepts a move and is therefore in the turn-advancing branch
        assert(tail.len() > 0);
        assert(g1.accepts(tail[0].0, tail[0].1));
        assert(g1.state is Active);
        assert(g1.turn == (g.turn + 1) % 2);
        lemma_run_alternation(g1, tail, k - 1);
        assert(moves.subrange(0, k)[0] == moves[0]);
        assert(moves.subrange(0, k).subrange(1, k) =~= tail.subrange(0, k - 1));
        assert(spec_run(g, moves.subrange(0, k)) == spec_run(g1, tail.subrange(0, k - 1)));
        assert(tail[k - 1] == moves[k]);
        assert((g1.turn + (k - 1)) % 2 == (g.turn + k) % 2);
    }
}

/// Alternation: for any sequence of accepted moves from a fresh game,
/// the player making ply `k` (0-indexed) is the first player when `k` is
/// even and the second when `k` is odd, and the sign that ply places is
/// `X` when `k` is even and `O` when `k` is odd.
pub proof fn lemma_alternation(
    p1: Player,
    p2: Player,
    g: Game,
    moves: Seq<(Player, Tile)>,
    k: int,
)
    requires
        p1 != p2,
        g.is_initial(p1, p2),
        all_accepted(g, moves),
        0 <= k < moves.len(),
    ensures
        moves[k].0 == (if k % 2 == 0 {
            p1
        } else {
            p2
        }),
        spec_sign_of(spec_run(g, moves.subrange(0, k)).turn) == (if k % 2 == 0 {
            Sign::X
        } else {
            Sign::O
        }),
{
    lemma_run_alternation(g, moves, k);
}

/// An occupied cell never changes: whatever accepted plies follow, it
/// keeps the sign it holds.
pub proof fn lemma_run_preserves_cell(g: Game, moves: Seq<(Player, Tile)>, r: int, c: int)
    requires
        all_accepted(g, moves),
        0 <= r < 3,
        0 <= c < 3,
        spec_cell(g.board, r, c) is Some,
    ensures
        spec_cell(spec_run(g, moves).board, r, c) == spec_cell(g.board, r, c),
    decreases moves.len(),
{
    if moves.len() > 0 {
        let tile = moves[0].1;
        let g1 = g.spec_next(tile);
        // the accepted ply targets an empty cell, so not this one
        assert(spec_cell(g.board, tile.row as int, tile.col as int) is None);
        lemma_board_set_cells(g.board, tile.row as int, tile.col as int, spec_sign_of(g.turn));
        assert(spec_cell(g1.board, r, c) == spec_cell(g.board, r, c));
        lemma_run_preserves_cell(g1, moves.subrange(1, moves.len() as int), r, c);
    }
}

/// Immutability of occupied cells: once a play has succeeded on a tile,
/// no later play on that tile ever succeeds again, whoever attempts it;
/// and when the match is still running and the mover is the player whose
/// turn it is, the rejection is exactly `TileAlreadySet`.
pub proof fn lemma_occupied_cell_locked(
    g: Game,
    player: Player,
    tile: Tile,
    moves: Seq<(Player, Tile)>,
    q: Player,
)
    requires
        g.well_formed(),
        g.accepts(player, tile),
        all_accepted(g.spec_next(tile), moves),
    ensures
        spec_run(g.spec_next(tile), moves).spec_move_error(q, tile) is Some,
        spec_run(g.spec_next(tile), moves).state is Active && q == spec_run(
            g.spec_next(tile),
            moves,
        ).spec_current_player() ==> spec_run(g.spec_next(tile), moves).spec_move_error(q, tile)
            == Some(TicTactoeError::TileAlreadySet),
{
    let g1 = g.spec_next(tile);
    lemma_board_set_cells(g.board, tile.row as int, tile.col as int, spec_sign_of(g.turn));
    assert(spec_cell(g1.board, tile.row as int, tile.col as int) is Some);
    lemma_run_preserves_cell(g1, moves, tile.row as int, tile.col as int);
}

/// Turn gating: while the match is running, a move by anyone other than
/// the player whose turn it is fails with `NotPlayersTurn` — and, by the
/// contract of `play`, a rejected move leaves board, turn and state
/// unchanged.
pub proof fn lemma_turn_gating(g: Game, q: Player, tile: Tile)
    requires
        g.state is Active,
        q != g.spec_current_player(),
    ensures
        g.spec_move_error(q, tile) == Some(TicTactoeError::NotPlayersTurn),
{
}

/// Terminal lock: a finished match rejects every move, by any player at
/// any tile, with `GameAlreadyOver` — and, by the contract of `play`, a
/// rejected move mutates nothing.
pub proof fn lemma_terminal_lock(g: Game, q: Player, tile: Tile)
    requires
        !(g.state is Active),
    ensures
        g.spec_move_error(q, tile) == Some(TicTactoeError::GameAlreadyOver),
{
}

/// Bounds check precedence: while the match is running and the mover is
/// the player whose turn it is, a coordinate off the board always fails
/// with `TileOutOfBounds`; the occupancy of a cell is never read at an
/// out-of-range coordinate.
pub proof fn lemma_bounds_precedence(g: Game, q: Player, tile: Tile)
    requires
        g.state is Active,
        q == g.spec_current_player(),
        tile.row >= 3 || tile.col >= 3,
    ensures
        g.spec_move_error(q, tile) == Some(TicTactoeError::TileOutOfBounds),
{
}

/// Win detection: when an accepted ply completes any of the 8 lines for
/// the mover's sign, the match ends won by the mover — the player whose
/// turn it was — and the turn index stays put.
pub proof fn lemma_win_detection(g: Game, player: Player, tile: Tile)
    requires
        g.well_formed(),
        g.accepts(player, tile),
        spec_board_wins(
            spec_board_set(g.board, tile.row as int, tile.col as int, spec_sign_of(g.turn)),
            spec_sign_of(g.turn),
        ),
    ensures
        g.spec_next(tile).state == (GameState::Won { winner: g.spec_current_player() }),
        g.spec_next(tile).turn == g.turn,
        g.spec_next(tile).players == g.players,
{
}

/// Tie correctness: when an accepted ply fills the board without
/// completing a line for the mover's sign, the match ends in a tie.
pub proof fn lemma_tie_detection(g: Game, player: Player, tile: Tile)
    requires
        g.well_formed(),
        g.accepts(player, tile),
        !spec_board_wins(
            spec_board_set(g.board, tile.row as int, tile.col as int, spec_sign_of(g.turn)),
            spec_sign_of(g.turn),
        ),
        spec_board_full(
            spec_board_set(g.board, tile.row as int, tile.col as int, spec_sign_of(g.turn)),
        ),
    ensures
        (g.spec_next(tile).state is Tie),
        g.spec_next(tile).turn == g.turn,
        g.spec_next(tile).players == g.players,
{
}

} // verus!
