use vstd::prelude::*;

use crate::player::Player;

verus! {

/// A `(row, column)` pair; on a board both range over `0..9`.
pub type Coordinates = (usize, usize);

/// A move: the cell played and who played it.
#[derive(Debug, Clone, Copy, Eq, Hash)]
pub struct Move {
    pub coordinates: Coordinates,
    pub player: Player,
}

impl Move {
    pub fn new(coordinates: Coordinates, player: Player) -> (r: Move)
        ensures
            r.coordinates == coordinates,
            r.player == player,
    {
        Move { coordinates, player }
    }
}

impl PartialEq for Move {
    fn eq(&self, other: &Move) -> (r: bool)
        ensures
            r == (*self == *other),
    {
        self.coordinates.0 == other.coordinates.0 && self.coordinates.1 == other.coordinates.1
            && self.player == other.player
    }
}

impl vstd::std_specs::cmp::PartialEqSpecImpl for Move {
    open spec fn obeys_eq_spec() -> bool {
        true
    }

    open spec fn eq_spec(&self, other: &Move) -> bool {
        *self == *other
    }
}

} // verus!
