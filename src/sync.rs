//! Reconciliation of a locally held history with the stored one. The
//! stored (remote) history wins wherever both have a move.
use vstd::prelude::*;

use crate::board::Board;
use crate::game_data::GameData;
use crate::game_move::Move;
use crate::rules::{is_legal_history, lemma_replay_legal, replay};

verus! {

/// The history both sides agree on afterwards: the remote moves, then the
/// local moves past the end of the remote history.
pub open spec fn merged_history(local: Seq<Move>, remote: Seq<Move>) -> Seq<Move> {
    remote + local_only(local, remote)
}

/// The local moves past the end of the remote history, in order.
pub open spec fn local_only(local: Seq<Move>, remote: Seq<Move>) -> Seq<Move> {
    if local.len() > remote.len() {
        local.subrange(remote.len() as int, local.len() as int)
    } else {
        Seq::empty()
    }
}

/// What a reconciliation decides: the merged history, and the local-only
/// moves to append to the remote store.
#[derive(Debug, Clone)]
pub struct SyncPlan {
    pub moves: Vec<Move>,
    pub uploads: Vec<Move>,
}

/// Walks both histories index by index: a move only the remote has is
/// adopted, a move only the local side has is queued for upload, and where
/// both have one the remote move replaces the local one.
pub fn reconcile(local: &Vec<Move>, remote: &Vec<Move>) -> (r: SyncPlan)
    ensures
        r.moves@ == merged_history(local@, remote@),
        r.uploads@ == local_only(local@, remote@),
{
    let mut local_moves = local.clone();
    let mut moves_to_upload: Vec<Move> = Vec::new();
    let total = if local.len() > remote.len() {
        local.len()
    } else {
        remote.len()
    };
    let mut move_index: usize = 0;
    while move_index < total
        invariant
            local_moves@.len() == if move_index <= local@.len() {
                local@.len() as int
            } else {
                move_index as int
            },
            move_index <= total,
            total == if local@.len() > remote@.len() {
                local@.len()
            } else {
                remote@.len()
            },
            forall|k: int|
                0 <= k < move_index ==> #[trigger] local_moves@[k] == if k < remote@.len() {
                    remote@[k]
                } else {
                    local@[k]
                },
            forall|k: int| move_index <= k < local@.len() ==> #[trigger] local_moves@[k] == local@[k],
            moves_to_upload@ == if move_index <= remote@.len() || local@.len() <= remote@.len() {
                Seq::<Move>::empty()
            } else {
                local@.subrange(
                    remote@.len() as int,
                    if move_index < local@.len() {
                        move_index as int
                    } else {
                        local@.len() as int
                    },
                )
            },
        decreases total - move_index,
    {
        proof {
            if move_index >= remote@.len() && move_index < local@.len() && move_index
                > remote@.len() {
                assert(local@.subrange(remote@.len() as int, move_index + 1) =~= local@.subrange(
                    remote@.len() as int,
                    move_index as int,
                ).push(local@[move_index as int]));
            }
            if move_index == remote@.len() && move_index < local@.len() {
                assert(local@.subrange(remote@.len() as int, move_index + 1) =~= seq![
                    local@[move_index as int],
                ]);
            }
        }
        if move_index >= local_moves.len() {
            // only the remote side has this move
            local_moves.push(remote[move_index]);
        } else if move_index >= remote.len() {
            // only the local side has this move
            moves_to_upload.push(local_moves[move_index]);
        } else {
            // both have a move here: the remote one wins
            local_moves.set(move_index, remote[move_index]);
        }
        move_index += 1;
    }
    assert(local_moves@ =~= merged_history(local@, remote@));
    SyncPlan { moves: local_moves, uploads: moves_to_upload }
}

impl Board {
    /// Brings the board in line with the remote history `remote_moves`
    /// (remote wins) by replaying the merged history, and returns the
    /// local-only moves that still have to be appended remotely, in order.
    pub fn sync_with(&mut self, remote_moves: &Vec<Move>) -> (uploads: Vec<Move>)
        requires
            old(self).wf(),
        ensures
            final(self).wf(),
            final(self).game_id == old(self).game_id,
            final(self).moves@ == replay(merged_history(old(self).moves@, remote_moves@)),
            uploads@ == local_only(old(self).moves@, remote_moves@),
    {
        let plan = reconcile(&self.moves, remote_moves);
        let game_id = self.game_id;
        *self = Board::from_game_data(GameData { moves: plan.moves, game_id });
        plan.uploads
    }
}

/// Reconciliation converges and the remote side wins: appending the
/// uploaded moves to the remote history gives exactly the merged history,
/// which starts with the whole remote history, so a local move at a
/// position the remote side also holds is dropped. When both sides agree
/// nothing changes and nothing is uploaded, and when the merged history is
/// legal the board ends up holding all of it.
pub proof fn law_sync_converges(local: Seq<Move>, remote: Seq<Move>)
    ensures
        remote + local_only(local, remote) == merged_history(local, remote),
        merged_history(local, remote).take(remote.len() as int) == remote,
        merged_history(local, remote).len() == if local.len() > remote.len() {
            local.len()
        } else {
            remote.len()
        },
        forall|k: int|
            remote.len() <= k < local.len() ==> #[trigger] merged_history(local, remote)[k]
                == local[k],
        local == remote ==> merged_history(local, remote) == local && local_only(
            local,
            remote,
        ).len() == 0,
        is_legal_history(merged_history(local, remote)) ==> replay(merged_history(local, remote))
            == merged_history(local, remote),
{
    assert(merged_history(local, remote).take(remote.len() as int) =~= remote);
    if local == remote {
        assert(merged_history(local, remote) =~= local);
    }
    if is_legal_history(merged_history(local, remote)) {
        lemma_replay_legal(merged_history(local, remote));
    }
}

} // verus!
