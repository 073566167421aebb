use vstd::prelude::*;

verus! {

/// One of the two sides of a game.
#[derive(Debug, Clone, Copy, PartialEq, Eq, Structural, Hash)]
pub enum Player {
    X,
    O,
}

impl Player {
    /// The opponent of `self`.
    pub open spec fn opponent(self) -> Player {
        match self {
            Player::X => Player::O,
            Player::O => Player::X,
        }
    }

    pub fn other(&self) -> (r: Player)
        ensures
            r == self.opponent(),
            r != *self,
    {
        match self {
            Player::X => Player::O,
            Player::O => Player::X,
        }
    }

    /// The player's name, as shown to users.
    pub fn to_string(&self) -> (r: String)
        ensures
            r@ == self.name(),
    {
        match self {
            Player::X => String::from_str("X"),
            Player::O => String::from_str("O"),
        }
    }

    pub open spec fn name(self) -> Seq<char> {
        match self {
            Player::X => "X"@,
            Player::O => "O"@,
        }
    }
}

} // verus!
