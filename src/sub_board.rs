use vstd::prelude::*;

use crate::field::Field;
use crate::game_state::GameState;
use crate::grid::{field_rows, has_shape, new_field_grid, Grid};
use crate::matrix::{check_matrix, matrix_state};
use crate::player::Player;

verus! {

/// One of the nine 3×3 grids of a board.
#[derive(Debug)]
pub struct SubBoard {
    pub data: Grid<Field>,
    pub state: Field,
}

impl SubBoard {
    /// The cells form a 3×3 grid.
    pub open spec fn wf(self) -> bool {
        has_shape(field_rows(self.data), 3, 3)
    }

    /// A sub-board with every cell vacant.
    pub fn new() -> (r: SubBoard)
        ensures
            r.wf(),
            forall|i: int, j: int|
                0 <= i < 3 && 0 <= j < 3 ==> #[trigger] field_rows(r.data)[i][j] == Field::Vacant,
            r.state == Field::Vacant,
    {
        SubBoard { data: new_field_grid(3, 3, Field::Vacant), state: Field::Vacant }
    }

    /// The state of this sub-board's grid with `next_player` to move.
    pub fn get_state(&self, next_player: Player) -> (r: GameState)
        requires
            self.wf(),
        ensures
            r == matrix_state(field_rows(self.data), next_player),
    {
        check_matrix(&self.data, next_player)
    }
}

impl Default for SubBoard {
    fn default() -> (r: SubBoard)
        ensures
            r.wf(),
            forall|i: int, j: int|
                0 <= i < 3 && 0 <= j < 3 ==> #[trigger] field_rows(r.data)[i][j] == Field::Vacant,
            r.state == Field::Vacant,
    {
        SubBoard::new()
    }
}

} // verus!
