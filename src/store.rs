//! The in-memory game table: game identifier → move history. The table is
//! a plain ordered log per game; checking moves is the caller's business.
use vstd::prelude::*;

use std::collections::HashMap;
use vstd::std_specs::hash::{axiom_hashmap_view_finite_dom, axiom_spec_keys_iter, spec_keys_iter};
use vstd::std_specs::iter::IteratorSpec;
use uuid::Uuid;

use crate::game_data::GameData;
use crate::game_move::Move;
use crate::ids::uuid_value;

verus! {

/// Settings of the in-memory table; it needs none.
#[derive(Debug, Clone)]
pub struct CacheProviderArgs {}

/// Failures of the in-memory table.
#[derive(Debug, Clone, PartialEq, Eq, Structural)]
pub enum CacheProviderErrorKind {
    LockError,
    KeyNotFound,
    GameExists,
}

impl CacheProviderErrorKind {
    pub open spec fn message(self) -> Seq<char> {
        match self {
            CacheProviderErrorKind::GameExists => "the game allready exists"@,
            CacheProviderErrorKind::KeyNotFound => "the game does not exist"@,
            CacheProviderErrorKind::LockError => "could not aquire lock on hashmap"@,
        }
    }

    /// A description of the failure for users.
    pub fn to_string(&self) -> (r: String)
        ensures
            r@ == self.message(),
    {
        match self {
            CacheProviderErrorKind::GameExists => String::from_str("the game allready exists"),
            CacheProviderErrorKind::KeyNotFound => String::from_str("the game does not exist"),
            CacheProviderErrorKind::LockError => String::from_str(
                "could not aquire lock on hashmap",
            ),
        }
    }
}

/// Games by the value of their identifier.
#[derive(Debug, Clone)]
pub struct GameTable {
    games: HashMap<u128, Vec<Move>>,
}

impl View for GameTable {
    type V = Map<u128, Seq<Move>>;

    closed spec fn view(&self) -> Map<u128, Seq<Move>> {
        self.games@.map_values(|v: Vec<Move>| v@)
    }
}

impl GameTable {
    /// An empty table.
    pub fn new() -> (r: GameTable)
        ensures
            r@ == Map::<u128, Seq<Move>>::empty(),
    {
        let r = GameTable { games: HashMap::new() };
        assert(r@ =~= Map::<u128, Seq<Move>>::empty());
        r
    }

    /// Adds an empty game under `game_id`, or under a fresh random
    /// identifier when none is given; fails if the identifier is taken.
    pub fn create_game(&mut self, game_id: Option<Uuid>) -> (r: Result<Uuid, CacheProviderErrorKind>)
        ensures
            game_id is Some ==> (r is Err <==> old(self)@.contains_key(uuid_value(game_id->0))),
            r is Err ==> old(self)@.dom().len() > 0,
            match r {
                Ok(id) => {
                    &&& !old(self)@.contains_key(uuid_value(id))
                    &&& final(self)@ == old(self)@.insert(uuid_value(id), Seq::empty())
                    &&& game_id is Some ==> id == game_id->0
                },
                Err(e) => e == CacheProviderErrorKind::GameExists && final(self)@ == old(self)@,
            },
    {
        let id = match game_id {
            Some(id) => id,
            None => Uuid::new_v4(),
        };
        let key = id.as_u128();
        if self.games.contains_key(&key) {
            proof {
                axiom_hashmap_view_finite_dom(self.games);
                assert(self@.dom() =~= self.games@.dom());
                assert(self@.dom().remove(key).len() + 1 == self@.dom().len());
            }
            return Err(CacheProviderErrorKind::GameExists);
        }
        self.games.insert(key, Vec::new());
        assert(self@ =~= old(self)@.insert(uuid_value(id), Seq::empty()));
        Ok(id)
    }

    /// Whether a game is stored under `game_id`.
    pub fn game_exists(&self, game_id: Uuid) -> (r: bool)
        ensures
            r == self@.contains_key(uuid_value(game_id)),
    {
        self.games.contains_key(&game_id.as_u128())
    }

    /// The game stored under `game_id`.
    pub fn get_game_data(&self, game_id: Uuid) -> (r: Result<GameData, CacheProviderErrorKind>)
        ensures
            r is Err <==> !self@.contains_key(uuid_value(game_id)),
            r is Err ==> r->Err_0 == CacheProviderErrorKind::KeyNotFound,
            r is Ok ==> r->Ok_0.moves@ == self@[uuid_value(game_id)] && r->Ok_0.game_id == game_id,
    {
        match self.games.get(&game_id.as_u128()) {
            Some(moves) => Ok(GameData { moves: moves.clone(), game_id }),
            None => Err(CacheProviderErrorKind::KeyNotFound),
        }
    }

    /// Appends `new_move` to the game under `game_id`, unchecked, and
    /// returns the game as it now stands.
    pub fn add_move(&mut self, game_id: Uuid, new_move: Move) -> (r: Result<
        GameData,
        CacheProviderErrorKind,
    >)
        ensures
            r is Err <==> !old(self)@.contains_key(uuid_value(game_id)),
            r is Err ==> r->Err_0 == CacheProviderErrorKind::KeyNotFound && final(self)@ == old(
                self,
            )@,
            r is Ok ==> final(self)@ == old(self)@.insert(
                uuid_value(game_id),
                old(self)@[uuid_value(game_id)].push(new_move),
            ),
            r is Ok ==> r->Ok_0.moves@ == final(self)@[uuid_value(game_id)] && r->Ok_0.game_id
                == game_id,
    {
        let key = game_id.as_u128();
        let mut moves = match self.games.get(&key) {
            Some(moves) => moves.clone(),
            None => {
                return Err(CacheProviderErrorKind::KeyNotFound);
            },
        };
        moves.push(new_move);
        let snapshot = GameData { moves: moves.clone(), game_id };
        self.games.insert(key, moves);
        assert(self@ =~= old(self)@.insert(
            uuid_value(game_id),
            old(self)@[uuid_value(game_id)].push(new_move),
        ));
        Ok(snapshot)
    }

    /// The identifiers of all stored games, each once, in no set order.
    pub fn get_games(&self) -> (r: Vec<Uuid>)
        ensures
            r@.len() == self@.dom().len(),
            forall|i: int| 0 <= i < r@.len() ==> self@.contains_key(uuid_value(#[trigger] r@[i])),
            forall|k: u128| #[trigger] self@.contains_key(k) ==> exists|i: int|
                0 <= i < r@.len() && uuid_value(#[trigger] r@[i]) == k,
            forall|i: int, j: int|
                0 <= i < j < r@.len() ==> uuid_value(#[trigger] r@[i]) != uuid_value(
                    #[trigger] r@[j],
                ),
            forall|u: Uuid| #[trigger] self@.contains_key(uuid_value(u)) ==> r@.contains(u),
            r@.no_duplicates(),
    {
        let mut ids: Vec<Uuid> = Vec::new();
        let ghost keys = spec_keys_iter(&self.games).remaining().unref();
        proof {
            axiom_spec_keys_iter(&self.games);
        }
        for key in it: self.games.keys()
            invariant
                it.seq().unref() == keys,
                ids@.len() == it.index(),
                forall|i: int| 0 <= i < ids@.len() ==> uuid_value(#[trigger] ids@[i]) == keys[i],
                forall|i: int, u: Uuid|
                    0 <= i < ids@.len() && #[trigger] uuid_value(u) == keys[i] ==> u == #[trigger] ids@[i],
        {
            ids.push(Uuid::from_u128(*key));
        }
        assert(ids@.len() == keys.len());
        assert(self@.dom() =~= self.games@.dom());
        assert(keys.len() == spec_keys_iter(&self.games).remaining().len());
        assert forall|k: u128| #[trigger] self@.contains_key(k) implies exists|i: int|
            0 <= i < ids@.len() && uuid_value(#[trigger] ids@[i]) == k by {
            assert(keys.to_set().contains(k));
            let i = keys.index_of(k);
            assert(uuid_value(ids@[i]) == k);
        }
        assert forall|i: int| 0 <= i < ids@.len() implies self@.contains_key(
            uuid_value(#[trigger] ids@[i]),
        ) by {
            assert(keys.to_set().contains(keys[i]));
        }
        assert forall|u: Uuid| #[trigger] self@.contains_key(uuid_value(u)) implies ids@.contains(
            u,
        ) by {
            let k = uuid_value(u);
            assert(keys.to_set().contains(k));
            let i = keys.index_of(k);
            assert(ids@[i] == u);
        }
        assert forall|i: int, j: int| 0 <= i < ids@.len() && 0 <= j < ids@.len() && i != j implies ids@[i]
            != ids@[j] by {
            assert(keys[i] != keys[j]);
        }
        ids
    }
}

impl Default for GameTable {
    fn default() -> (r: GameTable)
        ensures
            r@ == Map::<u128, Seq<Move>>::empty(),
    {
        GameTable::new()
    }
}

} // verus!
