use vstd::prelude::*;

use crate::player::Player;

verus! {

/// A single cell of a grid. `Disabled` marks a sub-board that ended in a
/// draw when the super-board is abstracted: nobody can claim it.
#[derive(Debug, Clone, Copy, PartialEq, Eq, Structural, Hash)]
pub enum Field {
    Vacant,
    Occupied { player: Player },
    Disabled,
}

} // verus!
