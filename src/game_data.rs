use vstd::prelude::*;

use uuid::Uuid;

use crate::game_move::Move;

verus! {

/// The stored and transported form of a game: its identifier and its moves
/// in the order they were played.
#[derive(Debug, Clone, PartialEq, Eq, Hash)]
pub struct GameData {
    pub moves: Vec<Move>,
    pub game_id: Uuid,
}

impl GameData {
    /// An empty game under a fresh random identifier.
    pub fn new() -> (r: GameData)
        ensures
            r.moves@.len() == 0,
    {
        GameData { moves: Vec::new(), game_id: Uuid::new_v4() }
    }

    /// An empty game under `id`.
    pub fn new_with_id(id: Uuid) -> (r: GameData)
        ensures
            r.moves@.len() == 0,
            r.game_id == id,
    {
        GameData { moves: Vec::new(), game_id: id }
    }

    /// Appends `m` to the moves.
    pub fn add_move(&mut self, m: Move)
        ensures
            final(self).moves@ == old(self).moves@.push(m),
            final(self).game_id == old(self).game_id,
    {
        self.moves.push(m);
    }
}

impl Default for GameData {
    fn default() -> (r: GameData)
        ensures
            r.moves@.len() == 0,
    {
        GameData::new()
    }
}

} // verus!
