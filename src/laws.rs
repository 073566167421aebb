//! Facts that hold of every game, proved over the rules that the board's
//! functions are specified by.
use vstd::prelude::*;

use crate::field::Field;
use crate::game_move::Move;
use crate::game_state::GameState;
use crate::grid::has_shape;
use crate::matrix::{grid_winner, is_full, matrix_state};
use crate::player::Player;
use crate::rules::{
    cell_of, check_move, is_legal_history, lemma_legal_drop_last, lemma_replay_legal, limiting,
    next_player_of, replay, state_of, InvalidMove,
};

verus! {

/// In a legal game X plays the even-numbered moves and O the odd-numbered
/// ones: no player moves twice in a row.
pub proof fn law_players_alternate(moves: Seq<Move>)
    requires
        is_legal_history(moves),
    ensures
        forall|k: int|
            0 <= k < moves.len() ==> #[trigger] moves[k].player == if k % 2 == 0 {
                Player::X
            } else {
                Player::O
            },
    decreases moves.len(),
{
    if moves.len() > 0 {
        lemma_legal_drop_last(moves);
        law_players_alternate(moves.drop_last());
        let k = moves.len() - 1;
        assert(moves.last().player == next_player_of(moves.drop_last())) by {
            reveal(check_move);
        }
        assert forall|i: int| 0 <= i < moves.len() implies #[trigger] moves[i].player == if i % 2
            == 0 {
            Player::X
        } else {
            Player::O
        } by {
            if i < k {
                assert(moves[i] == moves.drop_last()[i]);
            } else if k > 0 {
                assert(moves.drop_last().last() == moves.drop_last()[k - 1]);
            }
        }
    }
}

/// After each move of a legal game, the game is won, drawn, or in progress
/// with the mover's opponent to play.
pub proof fn law_state_after_move(moves: Seq<Move>)
    requires
        is_legal_history(moves),
        moves.len() > 0,
    ensures
        state_of(moves) is Won || state_of(moves) is Draw || state_of(moves)
            == (GameState::InProgress { next_player: moves.last().player.opponent() }),
{
}

/// Turning a well-formed board's moves into game data and replaying them
/// onto a fresh board keeps every move, and so the state too.
pub proof fn law_replay_round_trip(moves: Seq<Move>)
    requires
        is_legal_history(moves),
    ensures
        replay(moves) == moves,
        state_of(replay(moves)) == state_of(moves),
{
    lemma_replay_legal(moves);
}

/// A second move in a row by the same player is not that player's turn.
pub proof fn law_same_player_twice(moves: Seq<Move>, m: Move)
    requires
        moves.len() > 0,
        m.player == moves.last().player,
    ensures
        check_move(moves, m) == Err::<(), InvalidMove>(InvalidMove::NotYourTurn),
{
    reveal(check_move);
}

/// Once the game is decided, the player whose turn it is cannot move.
pub proof fn law_no_move_after_end(moves: Seq<Move>, m: Move)
    requires
        !(state_of(moves) is InProgress),
        m.player == next_player_of(moves),
    ensures
        check_move(moves, m) == Err::<(), InvalidMove>(InvalidMove::GameEnded),
{
    reveal(check_move);
}

/// In a running game, a move by the right player off the 9×9 board is out
/// of bounds.
pub proof fn law_out_of_bounds(moves: Seq<Move>, m: Move)
    requires
        state_of(moves) is InProgress,
        m.player == next_player_of(moves),
        m.coordinates.0 >= 9 || m.coordinates.1 >= 9,
    ensures
        check_move(moves, m) == Err::<(), InvalidMove>(InvalidMove::OutOfBounds),
{
    reveal(check_move);
}

/// In a running game, a move by the right player onto a taken cell is
/// refused as occupied.
pub proof fn law_field_occupied(moves: Seq<Move>, m: Move)
    requires
        state_of(moves) is InProgress,
        m.player == next_player_of(moves),
        m.coordinates.0 < 9 && m.coordinates.1 < 9,
        cell_of(moves, m.coordinates.0 as int, m.coordinates.1 as int) != Field::Vacant,
    ensures
        check_move(moves, m) == Err::<(), InvalidMove>(InvalidMove::FieldOccupied),
{
    reveal(check_move);
}

/// In a running game where the last move confines play to one sub-board, a
/// move by the right player onto a vacant cell of another sub-board is
/// refused as not active.
pub proof fn law_sub_board_not_active(moves: Seq<Move>, m: Move)
    requires
        state_of(moves) is InProgress,
        m.player == next_player_of(moves),
        m.coordinates.0 < 9 && m.coordinates.1 < 9,
        cell_of(moves, m.coordinates.0 as int, m.coordinates.1 as int) == Field::Vacant,
        limiting(moves) is Some,
        limiting(moves)->0 != (m.coordinates.0 as int / 3, m.coordinates.1 as int / 3),
    ensures
        check_move(moves, m) == Err::<(), InvalidMove>(InvalidMove::SubBoardNotActive),
{
    reveal(check_move);
}

/// A middle row held entirely by O wins for O, unless the top row is held
/// entirely by X, which the scan reaches first.
pub proof fn law_middle_row_wins(g: Seq<Seq<Field>>, next: Player)
    requires
        has_shape(g, 3, 3),
        g[1][0] == (Field::Occupied { player: Player::O }),
        g[1][1] == (Field::Occupied { player: Player::O }),
        g[1][2] == (Field::Occupied { player: Player::O }),
        !(g[0][0] == (Field::Occupied { player: Player::X }) && g[0][1] == (Field::Occupied {
            player: Player::X,
        }) && g[0][2] == (Field::Occupied { player: Player::X })),
    ensures
        matrix_state(g, next) == (GameState::Won { winner: Player::O }),
{
    reveal_with_fuel(crate::matrix::first_some, 9);
}

/// A grid with no vacant cell and no complete line is a draw.
pub proof fn law_full_grid_draws(g: Seq<Seq<Field>>, next: Player)
    requires
        has_shape(g, 3, 3),
        is_full(g),
        grid_winner(g) is None,
    ensures
        matrix_state(g, next) == GameState::Draw,
{
}

/// A grid with a vacant cell and no complete line is in progress with
/// `next` to move.
pub proof fn law_open_grid_in_progress(g: Seq<Seq<Field>>, next: Player)
    requires
        has_shape(g, 3, 3),
        !is_full(g),
        grid_winner(g) is None,
    ensures
        matrix_state(g, next) == (GameState::InProgress { next_player: next }),
{
}

} // verus!
