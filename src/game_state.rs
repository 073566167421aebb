use vstd::prelude::*;

use crate::player::Player;

verus! {

/// The outcome of a grid or a whole board, derived afresh on every query.
#[derive(Debug, Clone, Copy, PartialEq, Eq, Structural)]
pub enum GameState {
    Won { winner: Player },
    Draw,
    InProgress { next_player: Player },
}

impl GameState {
    pub fn is_won(&self) -> (r: bool)
        ensures
            r == (*self is Won),
    {
        matches!(self, GameState::Won { .. })
    }

    pub fn is_draw(&self) -> (r: bool)
        ensures
            r == (*self is Draw),
    {
        matches!(self, GameState::Draw)
    }

    pub fn is_in_progress(&self) -> (r: bool)
        ensures
            r == (*self is InProgress),
    {
        matches!(self, GameState::InProgress { .. })
    }

    /// A short description for users ("Won by X", "Draw", "Next player: O").
    pub fn to_string(&self) -> (r: String)
        ensures
            r@ == self.description(),
    {
        match self {
            GameState::Won { winner } => {
                let mut s = String::from_str("Won by ");
                let name = winner.to_string();
                s.append(name.as_str());
                s
            },
            GameState::Draw => String::from_str("Draw"),
            GameState::InProgress { next_player } => {
                let mut s = String::from_str("Next player: ");
                let name = next_player.to_string();
                s.append(name.as_str());
                s
            },
        }
    }

    pub open spec fn description(self) -> Seq<char> {
        match self {
            GameState::Won { winner } => "Won by "@ + winner.name(),
            GameState::Draw => "Draw"@,
            GameState::InProgress { next_player } => "Next player: "@ + next_player.name(),
        }
    }
}

} // verus!
