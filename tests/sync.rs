use tictactoe_extreme::sync::reconcile;
use tictactoe_extreme::{Board, GameTable, Move, Player};
use uuid::Uuid;

#[test]
fn divergent_histories_converge_with_remote_priority() {
    let id = Uuid::from_u128(0xabc);
    // remote: one move the local side never saw
    let mut remote = GameTable::new();
    remote.create_game(Some(id)).unwrap();
    let remote_move = Move::new((4, 4), Player::X);
    remote.add_move(id, remote_move).unwrap();
    // local: two moves of its own at the same positions
    let mut local = Board::new_with_id(id);
    let conflicting = Move::new((1, 1), Player::X);
    let local_only = Move::new((3, 3), Player::O);
    local.insert_move(conflicting.coordinates, conflicting.player).unwrap();
    local.insert_move(local_only.coordinates, local_only.player).unwrap();

    let remote_moves = remote.get_game_data(id).unwrap().moves;
    let uploads = local.sync_with(&remote_moves);
    assert_eq!(uploads, vec![local_only]);
    for m in uploads {
        remote.add_move(id, m).unwrap();
    }
    let remote_after = remote.get_game_data(id).unwrap().moves;
    assert_eq!(local.moves, vec![remote_move, local_only]);
    assert_eq!(remote_after, local.moves);
    assert!(!local.moves.contains(&conflicting));
    assert_eq!(local.game_id, id);
}

#[test]
fn reconcile_plan() {
    let a = Move::new((0, 0), Player::X);
    let b = Move::new((0, 1), Player::O);
    let c = Move::new((0, 4), Player::X);
    let d = Move::new((8, 8), Player::O);
    // remote longer: adopt its tail, upload nothing
    let plan = reconcile(&vec![a], &vec![a, b, c]);
    assert_eq!(plan.moves, vec![a, b, c]);
    assert!(plan.uploads.is_empty());
    // local longer: keep and upload the tail
    let plan = reconcile(&vec![a, b, c], &vec![a]);
    assert_eq!(plan.moves, vec![a, b, c]);
    assert_eq!(plan.uploads, vec![b, c]);
    // conflict: remote wins at shared positions
    let plan = reconcile(&vec![a, d, c], &vec![a, b]);
    assert_eq!(plan.moves, vec![a, b, c]);
    assert_eq!(plan.uploads, vec![c]);
    // identical: nothing to do
    let plan = reconcile(&vec![a, b], &vec![a, b]);
    assert_eq!(plan.moves, vec![a, b]);
    assert!(plan.uploads.is_empty());
    let plan = reconcile(&vec![], &vec![]);
    assert!(plan.moves.is_empty() && plan.uploads.is_empty());
}

#[test]
fn sync_with_empty_remote_uploads_everything() {
    let mut local = Board::new();
    local.insert_move((0, 0), Player::X).unwrap();
    let uploads = local.sync_with(&vec![]);
    assert_eq!(uploads, vec![Move::new((0, 0), Player::X)]);
    assert_eq!(local.moves, vec![Move::new((0, 0), Player::X)]);
}

#[test]
fn sync_adopts_remote_history() {
    let mut local = Board::new();
    let remote = vec![Move::new((0, 0), Player::X), Move::new((1, 1), Player::O)];
    let uploads = local.sync_with(&remote);
    assert!(uploads.is_empty());
    assert_eq!(local.moves, remote);
}
