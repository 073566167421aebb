//! The rules of the game as mathematics: every fact about a board is a
//! function of its move list.
use vstd::prelude::*;

use crate::field::Field;
use crate::game_move::{Coordinates, Move};
use crate::game_state::GameState;
use crate::matrix::matrix_state;
use crate::player::Player;

verus! {

/// Why a move is refused.
#[derive(Debug, Clone, Copy, PartialEq, Eq, Structural)]
pub enum InvalidMove {
    FieldOccupied,
    SubBoardNotActive,
    GameEnded,
    OutOfBounds,
    NotYourTurn,
}

/// The cell at `(r, c)` of the 9×9 board after `moves`: taken by the last
/// move played there, vacant if none was.
pub open spec fn cell_of(moves: Seq<Move>, r: int, c: int) -> Field
    decreases moves.len(),
{
    if moves.len() == 0 {
        Field::Vacant
    } else if moves.last().coordinates.0 == r && moves.last().coordinates.1 == c {
        Field::Occupied { player: moves.last().player }
    } else {
        cell_of(moves.drop_last(), r, c)
    }
}

/// The 3×3 cells of sub-board `(i, j)` after `moves`.
pub open spec fn sub_board_cells(moves: Seq<Move>, i: int, j: int) -> Seq<Seq<Field>> {
    Seq::new(3, |k: int| Seq::new(3, |l: int| cell_of(moves, 3 * i + k, 3 * j + l)))
}

/// X opens; afterwards the opponent of the last mover plays.
pub open spec fn next_player_of(moves: Seq<Move>) -> Player {
    if moves.len() == 0 {
        Player::X
    } else {
        moves.last().player.opponent()
    }
}

/// A sub-board's state seen as one cell of the super-board.
pub open spec fn reduced(s: GameState) -> Field {
    match s {
        GameState::InProgress { .. } => Field::Vacant,
        GameState::Draw => Field::Disabled,
        GameState::Won { winner } => Field::Occupied { player: winner },
    }
}

/// The super-board: each sub-board reduced to a single cell.
pub open spec fn abstracted(moves: Seq<Move>) -> Seq<Seq<Field>> {
    Seq::new(
        3,
        |i: int|
            Seq::new(
                3,
                |j: int| reduced(matrix_state(sub_board_cells(moves, i, j), next_player_of(moves))),
            ),
    )
}

/// The state of the whole game after `moves`.
pub open spec fn state_of(moves: Seq<Move>) -> GameState {
    matrix_state(abstracted(moves), next_player_of(moves))
}

/// The sub-board the next move is confined to: the one named by the last
/// move's position inside its own sub-board, unless that one is decided.
pub open spec fn limiting(moves: Seq<Move>) -> Option<(int, int)> {
    if moves.len() == 0 {
        None
    } else {
        let a = moves.last().coordinates.0 as int % 3;
        let b = moves.last().coordinates.1 as int % 3;
        if abstracted(moves)[a][b] == Field::Vacant {
            Some((a, b))
        } else {
            None
        }
    }
}

/// `(r, c)` may be played next: on the board, in the confining sub-board if
/// there is one, in an undecided sub-board, on a vacant cell.
pub open spec fn is_allowed(moves: Seq<Move>, r: int, c: int) -> bool {
    &&& 0 <= r < 9
    &&& 0 <= c < 9
    &&& match limiting(moves) {
        Some(t) => t == (r / 3, c / 3),
        None => true,
    }
    &&& abstracted(moves)[r / 3][c / 3] == Field::Vacant
    &&& cell_of(moves, r, c) == Field::Vacant
}

/// `is_allowed` as a predicate on coordinate pairs.
pub open spec fn allowed_pred(moves: Seq<Move>) -> spec_fn(Coordinates) -> bool {
    |p: Coordinates| is_allowed(moves, p.0 as int, p.1 as int)
}

/// All 81 cells of the board, row by row.
pub open spec fn board_coordinates() -> Seq<Coordinates> {
    Seq::new(81, |k: int| ((k / 9) as usize, (k % 9) as usize))
}

/// The cells that may be played next, row by row.
pub open spec fn allowed_moves(moves: Seq<Move>) -> Seq<Coordinates> {
    board_coordinates().filter(allowed_pred(moves))
}

/// The verdict on playing `m` after `moves`; the checks come in this order.
#[verifier::opaque]
pub open spec fn check_move(moves: Seq<Move>, m: Move) -> Result<(), InvalidMove> {
    if m.player != next_player_of(moves) {
        Err(InvalidMove::NotYourTurn)
    } else if !(state_of(moves) is InProgress) {
        Err(InvalidMove::GameEnded)
    } else if m.coordinates.0 >= 9 || m.coordinates.1 >= 9 {
        Err(InvalidMove::OutOfBounds)
    } else if cell_of(moves, m.coordinates.0 as int, m.coordinates.1 as int) != Field::Vacant {
        Err(InvalidMove::FieldOccupied)
    } else if !is_allowed(moves, m.coordinates.0 as int, m.coordinates.1 as int) {
        Err(InvalidMove::SubBoardNotActive)
    } else {
        Ok(())
    }
}

/// Every move was legal when it was played.
pub open spec fn is_legal_history(moves: Seq<Move>) -> bool {
    forall|k: int| 0 <= k < moves.len() ==> #[trigger] check_move(moves.take(k), moves[k]) is Ok
}

/// The moves that replaying `moves` onto an empty board keeps: the longest
/// prefix that is a legal history.
pub open spec fn replay(moves: Seq<Move>) -> Seq<Move>
    decreases moves.len(),
{
    if moves.len() == 0 {
        moves
    } else {
        let before = replay(moves.drop_last());
        if before.len() == moves.len() - 1 && check_move(before, moves.last()) is Ok {
            before.push(moves.last())
        } else {
            before
        }
    }
}

/// Extending a legal history by a move that passes the checks keeps it legal.
pub proof fn lemma_legal_push(moves: Seq<Move>, m: Move)
    requires
        is_legal_history(moves),
        check_move(moves, m) is Ok,
    ensures
        is_legal_history(moves.push(m)),
{
    let s = moves.push(m);
    assert forall|k: int| 0 <= k < s.len() implies #[trigger] check_move(s.take(k), s[k]) is Ok by {
        if k < moves.len() {
            assert(s.take(k) =~= moves.take(k));
            assert(check_move(moves.take(k), moves[k]) is Ok);
        } else {
            assert(s.take(k) =~= moves);
        }
    }
}

/// Removing the last move of a legal history leaves a legal history.
pub proof fn lemma_legal_drop_last(moves: Seq<Move>)
    requires
        is_legal_history(moves),
        moves.len() > 0,
    ensures
        is_legal_history(moves.drop_last()),
        check_move(moves.drop_last(), moves.last()) is Ok,
{
    let s = moves.drop_last();
    assert forall|k: int| 0 <= k < s.len() implies #[trigger] check_move(s.take(k), s[k]) is Ok by {
        assert(s.take(k) =~= moves.take(k));
        assert(check_move(moves.take(k), moves[k]) is Ok);
    }
    assert(moves.take(moves.len() - 1) =~= s);
    assert(check_move(moves.take(moves.len() - 1), moves[moves.len() - 1]) is Ok);
}

/// Replaying a legal history keeps all of it.
pub proof fn lemma_replay_legal(moves: Seq<Move>)
    requires
        is_legal_history(moves),
    ensures
        replay(moves) == moves,
    decreases moves.len(),
{
    if moves.len() > 0 {
        lemma_legal_drop_last(moves);
        lemma_replay_legal(moves.drop_last());
        assert(moves.drop_last().push(moves.last()) =~= moves);
    }
}

/// One step of a filter over a growing prefix.
pub proof fn lemma_filter_step<A>(s: Seq<A>, pred: spec_fn(A) -> bool, k: int)
    requires
        0 <= k < s.len(),
    ensures
        s.take(k + 1).filter(pred) == if pred(s[k]) {
            s.take(k).filter(pred).push(s[k])
        } else {
            s.take(k).filter(pred)
        },
{
    reveal(Seq::filter);
    assert(s.take(k + 1).drop_last() =~= s.take(k));
}

/// A cell of the board is among the allowed moves exactly when it may be
/// played.
pub proof fn lemma_allowed_contains(moves: Seq<Move>, r: int, c: int)
    requires
        0 <= r < 9,
        0 <= c < 9,
    ensures
        allowed_moves(moves).contains((r as usize, c as usize)) <==> is_allowed(moves, r, c),
{
    let cells = board_coordinates();
    let pred = allowed_pred(moves);
    let k = r * 9 + c;
    assert(cells[k] == (r as usize, c as usize));
    if is_allowed(moves, r, c) {
        cells.lemma_filter_contains(pred, k);
    }
    if allowed_moves(moves).contains((r as usize, c as usize)) {
        let i = choose|i: int|
            0 <= i < allowed_moves(moves).len() && allowed_moves(moves)[i] == (
            r as usize,
            c as usize,
        );
        cells.lemma_filter_pred(pred, i);
    }
}

} // verus!
