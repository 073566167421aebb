//! The full board: nine sub-boards, the moves played, and the legality of
//! the next move.
use vstd::prelude::*;

use itertools::Itertools;
use uuid::Uuid;

use crate::field::Field;
use crate::game_data::GameData;
use crate::game_move::{Coordinates, Move};
use crate::game_state::GameState;
use crate::grid::{
    field_at, field_rows, has_shape, new_field_grid, new_sub_board_grid, set_field, sub_board_at,
    sub_board_at_mut, sub_board_rows, Grid,
};
use crate::matrix::check_matrix;
use crate::player::Player;
use crate::rules::{
    abstracted, allowed_moves, cell_of, check_move, is_legal_history, lemma_allowed_contains,
    lemma_filter_step, lemma_legal_push, limiting, next_player_of, replay, state_of, sub_board_cells,
    allowed_pred, board_coordinates, InvalidMove,
};
use crate::sub_board::SubBoard;

verus! {

/// The grid holds 3×3 sub-boards, each a 3×3 grid of cells.
pub open spec fn grid_is_board(g: Grid<SubBoard>) -> bool {
    &&& has_shape(sub_board_rows(g), 3, 3)
    &&& forall|i: int, j: int|
        0 <= i < 3 && 0 <= j < 3 ==> (#[trigger] sub_board_rows(g)[i][j]).wf()
}

/// The cell at `(r, c)` of the 9×9 board held in `g`.
pub open spec fn board_cell(g: Grid<SubBoard>, r: int, c: int) -> Field {
    field_rows(sub_board_rows(g)[r / 3][c / 3].data)[r % 3][c % 3]
}

/// Relies on `Itertools::cartesian_product` of `0..rows` and `0..cols`:
/// every pair once, the first index varying slowest.
#[verifier::external_body]
fn index_pairs(rows: usize, cols: usize) -> (r: Vec<Coordinates>)
    requires
        rows * cols <= usize::MAX,
    ensures
        r@ == Seq::new(
            (rows * cols) as nat,
            |k: int| ((k / cols as int) as usize, (k % cols as int) as usize),
        ),
{
    (0..rows).cartesian_product(0..cols).collect()
}

/// Whether `c` is among `v`.
fn contains_coordinates(v: &Vec<Coordinates>, c: Coordinates) -> (r: bool)
    ensures
        r == v@.contains(c),
{
    let mut i: usize = 0;
    while i < v.len()
        invariant
            i <= v.len(),
            forall|k: int| 0 <= k < i ==> v@[k] != c,
        decreases v.len() - i,
    {
        if v[i].0 == c.0 && v[i].1 == c.1 {
            assert(v@[i as int] == c);
            return true;
        }
        i += 1;
    }
    false
}

/// A game of ultimate tic-tac-toe. Its sub-boards always show exactly the
/// moves played, and those moves were each legal when played.
#[derive(Debug)]
pub struct Board {
    pub data: Grid<SubBoard>,
    pub moves: Vec<Move>,
    pub game_id: Uuid,
}

impl Board {
    /// The grid shows the cells that the moves determine.
    pub open spec fn renders_moves(self) -> bool {
        &&& grid_is_board(self.data)
        &&& forall|r: int, c: int|
            0 <= r < 9 && 0 <= c < 9 ==> #[trigger] board_cell(self.data, r, c) == cell_of(
                self.moves@,
                r,
                c,
            )
    }

    /// Every constructor establishes this and every method keeps it.
    pub open spec fn wf(self) -> bool {
        &&& self.renders_moves()
        &&& is_legal_history(self.moves@)
    }

    proof fn lemma_sub_board_cells(self, i: int, j: int)
        requires
            self.renders_moves(),
            0 <= i < 3,
            0 <= j < 3,
        ensures
            field_rows(sub_board_rows(self.data)[i][j].data) == sub_board_cells(self.moves@, i, j),
    {
        let rows = field_rows(sub_board_rows(self.data)[i][j].data);
        let want = sub_board_cells(self.moves@, i, j);
        assert forall|k: int, l: int| 0 <= k < 3 && 0 <= l < 3 implies rows[k][l] == want[k][l] by {
            let r = 3 * i + k;
            let c = 3 * j + l;
            assert(r / 3 == i && r % 3 == k && c / 3 == j && c % 3 == l);
            assert(board_cell(self.data, r, c) == cell_of(self.moves@, r, c));
        }
        assert(rows =~~= want);
    }

    /// An empty board under a fresh random identifier.
    pub fn new() -> (r: Board)
        ensures
            r.wf(),
            r.moves@.len() == 0,
    {
        Board::new_with_id(Uuid::new_v4())
    }

    /// An empty board under `id`.
    pub fn new_with_id(id: Uuid) -> (r: Board)
        ensures
            r.wf(),
            r.moves@.len() == 0,
            r.game_id == id,
    {
        let mut sub_boards: Vec<SubBoard> = Vec::new();
        let mut k: usize = 0;
        while k < 9
            invariant
                k <= 9,
                sub_boards.len() == k,
                forall|a: int|
                    0 <= a < k ==> (#[trigger] sub_boards@[a]).wf() && forall|i: int, j: int|
                        0 <= i < 3 && 0 <= j < 3 ==> #[trigger] field_rows(sub_boards@[a].data)[i][j]
                            == Field::Vacant,
            decreases 9 - k,
        {
            sub_boards.push(SubBoard::new());
            k += 1;
        }
        let ghost v = sub_boards@;
        let data = new_sub_board_grid(3, 3, sub_boards).unwrap();
        let board = Board { data, moves: Vec::new(), game_id: id };
        assert forall|i: int, j: int| 0 <= i < 3 && 0 <= j < 3 implies (#[trigger] sub_board_rows(
            board.data,
        )[i][j]).wf() by {
            assert(sub_board_rows(board.data)[i][j] == v[i * 3 + j]);
        }
        assert forall|r: int, c: int| 0 <= r < 9 && 0 <= c < 9 implies #[trigger] board_cell(
            board.data,
            r,
            c,
        ) == cell_of(board.moves@, r, c) by {
            assert(sub_board_rows(board.data)[r / 3][c / 3] == v[(r / 3) * 3 + c / 3]);
        }
        board
    }

    /// The cell at `(row, column)` of the 9×9 board.
    pub fn cell(&self, row: usize, column: usize) -> (r: Field)
        requires
            self.wf(),
            row < 9,
            column < 9,
        ensures
            r == cell_of(self.moves@, row as int, column as int),
    {
        proof {
            assert(board_cell(self.data, row as int, column as int) == cell_of(
                self.moves@,
                row as int,
                column as int,
            ));
        }
        field_at(&sub_board_at(&self.data, row / 3, column / 3).data, row % 3, column % 3)
    }

    /// X opens; afterwards the opponent of the last mover plays.
    pub fn get_next_player(&self) -> (r: Player)
        ensures
            r == next_player_of(self.moves@),
    {
        if self.moves.len() == 0 {
            Player::X
        } else {
            self.moves[self.moves.len() - 1].player.other()
        }
    }

    /// The sub-board holding `coordinates` and the position inside it, e.g.
    /// `(5, 1)` lies at `(2, 1)` of sub-board `(1, 0)`.
    pub fn get_subboard_for_move(&self, coordinates: Coordinates) -> (r: Option<
        (Coordinates, Coordinates),
    >)
        ensures
            r == Some(
                (
                    (coordinates.0 / 3, coordinates.1 / 3),
                    (coordinates.0 % 3, coordinates.1 % 3),
                ),
            ),
    {
        let (row, column) = coordinates;
        let subboard_row = row / 3;
        let subboard_column = column / 3;
        let field_row = row - subboard_row * 3;
        let field_column = column - subboard_column * 3;
        Some(((subboard_row, subboard_column), (field_row, field_column)))
    }

    /// The super-board: each sub-board reduced to one cell, `Occupied` by its
    /// winner, `Disabled` if drawn, `Vacant` while undecided.
    pub fn get_abstracted_board(&self) -> (r: Grid<Field>)
        requires
            self.wf(),
        ensures
            has_shape(field_rows(r), 3, 3),
            field_rows(r) == abstracted(self.moves@),
    {
        let next_player = self.get_next_player();
        let mut data = new_field_grid(3, 3, Field::Vacant);
        let mut i: usize = 0;
        while i < 3
            invariant
                i <= 3,
                self.wf(),
                next_player == next_player_of(self.moves@),
                has_shape(field_rows(data), 3, 3),
                forall|a: int, b: int|
                    0 <= a < i && 0 <= b < 3 ==> #[trigger] field_rows(data)[a][b] == abstracted(
                        self.moves@,
                    )[a][b],
            decreases 3 - i,
        {
            let mut j: usize = 0;
            while j < 3
                invariant
                    i < 3,
                    j <= 3,
                    self.wf(),
                    next_player == next_player_of(self.moves@),
                    has_shape(field_rows(data), 3, 3),
                    forall|a: int, b: int|
                        0 <= a < i && 0 <= b < 3 ==> #[trigger] field_rows(data)[a][b]
                            == abstracted(self.moves@)[a][b],
                    forall|b: int|
                        0 <= b < j ==> #[trigger] field_rows(data)[i as int][b] == abstracted(
                            self.moves@,
                        )[i as int][b],
                decreases 3 - j,
            {
                let sub_board = sub_board_at(&self.data, i, j);
                proof {
                    self.lemma_sub_board_cells(i as int, j as int);
                }
                let field = match sub_board.get_state(next_player) {
                    GameState::InProgress { .. } => Field::Vacant,
                    GameState::Draw => Field::Disabled,
                    GameState::Won { winner } => Field::Occupied { player: winner },
                };
                set_field(&mut data, i, j, field);
                j += 1;
            }
            i += 1;
        }
        assert(field_rows(data) =~~= abstracted(self.moves@));
        data
    }

    /// The state of the game: the super-board checked like a single grid.
    pub fn get_state(&self) -> (r: GameState)
        requires
            self.wf(),
        ensures
            r == state_of(self.moves@),
    {
        let next_player = self.get_next_player();
        let data = self.get_abstracted_board();
        check_matrix(&data, next_player)
    }

    /// The cells that may be played next, row by row.
    pub fn get_allowed_moves(&self) -> (r: Vec<Coordinates>)
        requires
            self.wf(),
        ensures
            r@ == allowed_moves(self.moves@),
    {
        let current_states = self.get_abstracted_board();
        let ghost moves = self.moves@;
        // the position of the last move inside its sub-board names the
        // sub-board of the next move, unless that one is decided
        let limiting_subboard: Option<Coordinates> = if self.moves.len() > 0 {
            let last_move = self.moves[self.moves.len() - 1];
            match self.get_subboard_for_move(last_move.coordinates) {
                Some((_subboard_index, field_index)) => {
                    if field_at(&current_states, field_index.0, field_index.1) == Field::Vacant {
                        Some(field_index)
                    } else {
                        None
                    }
                },
                None => None,
            }
        } else {
            None
        };
        assert(match limiting(moves) {
            Some(t) => limiting_subboard == Some((t.0 as usize, t.1 as usize)),
            None => limiting_subboard is None,
        });
        let cells = index_pairs(9, 9);
        assert(cells@ =~= board_coordinates());
        let mut allowed: Vec<Coordinates> = Vec::new();
        let mut k: usize = 0;
        while k < cells.len()
            invariant
                k <= cells.len(),
                cells@ == board_coordinates(),
                self.wf(),
                moves == self.moves@,
                field_rows(current_states) == abstracted(moves),
                has_shape(field_rows(current_states), 3, 3),
                match limiting(moves) {
                    Some(t) => limiting_subboard == Some((t.0 as usize, t.1 as usize)),
                    None => limiting_subboard is None,
                },
                allowed@ == board_coordinates().take(k as int).filter(allowed_pred(moves)),
            decreases cells.len() - k,
        {
            let coordinates = cells[k];
            let (row, column) = coordinates;
            let subboard_index = (row / 3, column / 3);
            let field_index = (row % 3, column % 3);
            proof {
                lemma_filter_step(board_coordinates(), allowed_pred(moves), k as int);
                assert(board_cell(self.data, row as int, column as int) == cell_of(
                    moves,
                    row as int,
                    column as int,
                ));
            }
            let outside_limit = match limiting_subboard {
                Some(l) => l.0 != subboard_index.0 || l.1 != subboard_index.1,
                None => false,
            };
            if !outside_limit && field_at(&current_states, subboard_index.0, subboard_index.1)
                == Field::Vacant && field_at(
                &sub_board_at(&self.data, subboard_index.0, subboard_index.1).data,
                field_index.0,
                field_index.1,
            ) == Field::Vacant {
                allowed.push(coordinates);
            }
            k += 1;
        }
        assert(board_coordinates().take(81) =~= board_coordinates());
        allowed
    }

    /// Checks `new_move` against the rules, in this order: the mover's turn,
    /// the game still running, the cell on the board, the cell vacant, the
    /// cell allowed by the sub-board constraint.
    pub fn validate_move(&self, new_move: Move) -> (r: Result<(), InvalidMove>)
        requires
            self.wf(),
        ensures
            r == check_move(self.moves@, new_move),
    {
        reveal(check_move);
        if self.get_next_player() != new_move.player {
            return Err(InvalidMove::NotYourTurn);
        }
        if !self.get_state().is_in_progress() {
            return Err(InvalidMove::GameEnded);
        }
        if new_move.coordinates.0 >= 9 || new_move.coordinates.1 >= 9 {
            return Err(InvalidMove::OutOfBounds);
        }
        let (row, column) = new_move.coordinates;
        proof {
            assert(board_cell(self.data, row as int, column as int) == cell_of(
                self.moves@,
                row as int,
                column as int,
            ));
        }
        if let Some((subboard_index, field_index)) = self.get_subboard_for_move(
            new_move.coordinates,
        ) {
            if field_at(
                &sub_board_at(&self.data, subboard_index.0, subboard_index.1).data,
                field_index.0,
                field_index.1,
            ) != Field::Vacant {
                return Err(InvalidMove::FieldOccupied);
            }
        }
        let allowed = self.get_allowed_moves();
        proof {
            lemma_allowed_contains(self.moves@, row as int, column as int);
        }
        if !contains_coordinates(&allowed, new_move.coordinates) {
            return Err(InvalidMove::SubBoardNotActive);
        }
        Ok(())
    }

    /// Marks the cell of `m` as taken by its player, without recording the
    /// move or checking it; a cell off the board is refused.
    pub fn render_move(&mut self, m: &Move) -> (r: Result<(), InvalidMove>)
        requires
            grid_is_board(old(self).data),
        ensures
            r is Err <==> (m.coordinates.0 >= 9 || m.coordinates.1 >= 9),
            r is Err ==> r == Err::<(), InvalidMove>(InvalidMove::OutOfBounds) && *final(self)
                == *old(self),
            grid_is_board(final(self).data),
            final(self).moves == old(self).moves,
            final(self).game_id == old(self).game_id,
            forall|a: int, b: int|
                0 <= a < 9 && 0 <= b < 9 ==> #[trigger] board_cell(final(self).data, a, b) == if r
                    is Ok && a == m.coordinates.0 && b == m.coordinates.1 {
                    (Field::Occupied { player: m.player })
                } else {
                    board_cell(old(self).data, a, b)
                },
    {
        if m.coordinates.0 >= 9 || m.coordinates.1 >= 9 {
            return Err(InvalidMove::OutOfBounds);
        }
        let (subboard_index, field_index) = match self.get_subboard_for_move(m.coordinates) {
            Some(indices) => indices,
            None => {
                return Err(InvalidMove::OutOfBounds);
            },
        };
        let ghost old_data = self.data;
        let sub_board = sub_board_at_mut(&mut self.data, subboard_index.0, subboard_index.1);
        set_field(
            &mut sub_board.data,
            field_index.0,
            field_index.1,
            Field::Occupied { player: m.player },
        );
        proof {
            assert forall|a: int, b: int| 0 <= a < 9 && 0 <= b < 9 implies #[trigger] board_cell(
                self.data,
                a,
                b,
            ) == if a == m.coordinates.0 && b == m.coordinates.1 {
                Field::Occupied { player: m.player }
            } else {
                board_cell(old_data, a, b)
            } by {
                if a / 3 == subboard_index.0 && b / 3 == subboard_index.1 && a % 3
                    == field_index.0 && b % 3 == field_index.1 {
                    assert(a == m.coordinates.0 && b == m.coordinates.1);
                }
            }
        }
        Ok(())
    }

    /// Plays `player` at `coordinates` if the rules allow it; otherwise the
    /// board is left as it was and the reason is returned.
    pub fn insert_move(&mut self, coordinates: Coordinates, player: Player) -> (r: Result<
        (),
        InvalidMove,
    >)
        requires
            old(self).wf(),
        ensures
            final(self).wf(),
            r == check_move(old(self).moves@, (Move { coordinates, player })),
            r is Ok ==> final(self).moves@ == old(self).moves@.push((Move { coordinates, player })),
            r is Err ==> *final(self) == *old(self),
            final(self).game_id == old(self).game_id,
    {
        let new_move = Move::new(coordinates, player);
        let verdict = self.validate_move(new_move);
        if verdict.is_err() {
            return verdict;
        }
        let ghost old_moves = self.moves@;
        proof {
            lemma_legal_push(old_moves, new_move);
            assert(new_move.coordinates.0 < 9 && new_move.coordinates.1 < 9) by {
                reveal(check_move);
            }
        }
        self.moves.push(new_move);
        let rendered = self.render_move(&new_move);
        proof {
            assert(self.moves@.drop_last() =~= old_moves);
        }
        match rendered {
            Ok(()) => verdict,
            Err(e) => Err(e),
        }
    }

    /// Replays the moves of `game_data` onto an empty board under its
    /// identifier, stopping at the first move the rules refuse.
    pub fn from_game_data(game_data: GameData) -> (r: Board)
        ensures
            r.wf(),
            r.moves@ == replay(game_data.moves@),
            r.game_id == game_data.game_id,
    {
        let mut board = Board::new_with_id(game_data.game_id);
        let mut failed = false;
        let mut i: usize = 0;
        while i < game_data.moves.len()
            invariant
                i <= game_data.moves.len(),
                board.wf(),
                board.game_id == game_data.game_id,
                board.moves@ == replay(game_data.moves@.take(i as int)),
                failed == (board.moves@.len() < i),
                board.moves@.len() <= i,
            decreases game_data.moves.len() - i,
        {
            let m = game_data.moves[i];
            if !failed {
                match board.insert_move(m.coordinates, m.player) {
                    Ok(()) => {},
                    Err(_) => {
                        failed = true;
                    },
                }
            }
            proof {
                assert(game_data.moves@.take(i + 1).drop_last() =~= game_data.moves@.take(i as int));
            }
            i += 1;
        }
        assert(game_data.moves@.take(game_data.moves@.len() as int) =~= game_data.moves@);
        board
    }
}

impl Default for Board {
    fn default() -> (r: Board)
        ensures
            r.wf(),
            r.moves@.len() == 0,
    {
        Board::new()
    }
}

/// Replays game data onto a fresh board, as `Board::from_game_data` does.
impl From<GameData> for Board {
    fn from(game_data: GameData) -> (r: Board)
        ensures
            r.wf(),
            r.moves@ == replay(game_data.moves@),
            r.game_id == game_data.game_id,
    {
        Board::from_game_data(game_data)
    }
}

impl vstd::std_specs::convert::FromSpecImpl<GameData> for Board {
    open spec fn obeys_from_spec() -> bool {
        false
    }

    open spec fn from_spec(game_data: GameData) -> Board {
        arbitrary()
    }
}

/// A board's game data: its identifier and its moves.
impl From<Board> for GameData {
    fn from(board: Board) -> (r: GameData) {
        GameData { moves: board.moves, game_id: board.game_id }
    }
}

impl vstd::std_specs::convert::FromSpecImpl<Board> for GameData {
    open spec fn obeys_from_spec() -> bool {
        true
    }

    open spec fn from_spec(board: Board) -> GameData {
        GameData { moves: board.moves, game_id: board.game_id }
    }
}

} // verus!
