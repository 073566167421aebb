use tictactoe_extreme::{CacheProviderErrorKind, GameTable, Move, Player};
use uuid::Uuid;

#[test]
fn create_and_read_games() {
    let mut table = GameTable::new();
    let id = Uuid::from_u128(0x1234);
    assert_eq!(table.create_game(Some(id)), Ok(id));
    assert!(table.game_exists(id));
    assert!(!table.game_exists(Uuid::from_u128(0x9999)));
    let data = table.get_game_data(id).unwrap();
    assert_eq!(data.game_id, id);
    assert!(data.moves.is_empty());
}

#[test]
fn creating_a_taken_id_fails() {
    let mut table = GameTable::new();
    let id = Uuid::from_u128(5);
    table.create_game(Some(id)).unwrap();
    table.add_move(id, Move::new((0, 0), Player::X)).unwrap();
    assert_eq!(table.create_game(Some(id)), Err(CacheProviderErrorKind::GameExists));
    assert_eq!(table.get_game_data(id).unwrap().moves.len(), 1);
}

#[test]
fn missing_game_is_key_not_found() {
    let mut table = GameTable::new();
    let id = Uuid::from_u128(77);
    assert_eq!(table.get_game_data(id), Err(CacheProviderErrorKind::KeyNotFound));
    assert_eq!(
        table.add_move(id, Move::new((0, 0), Player::X)),
        Err(CacheProviderErrorKind::KeyNotFound)
    );
    assert!(!table.game_exists(id));
}

#[test]
fn fresh_ids_are_distinct_and_listed() {
    let mut table = GameTable::default();
    let a = table.create_game(None).unwrap();
    let b = table.create_game(None).unwrap();
    assert_ne!(a, b);
    let mut listed = table.get_games();
    listed.sort();
    let mut expected = vec![a, b];
    expected.sort();
    assert_eq!(listed, expected);
}

#[test]
fn listing_returns_every_id_once() {
    let mut table = GameTable::new();
    let mut ids: Vec<Uuid> = (1..=4u128).map(|v| Uuid::from_u128(v * 1000 + 3)).collect();
    for id in ids.iter() {
        table.create_game(Some(*id)).unwrap();
    }
    let mut listed = table.get_games();
    assert_eq!(listed.len(), ids.len());
    listed.sort();
    ids.sort();
    assert_eq!(listed, ids);
    assert!(GameTable::new().get_games().is_empty());
}

#[test]
fn moves_are_appended_in_order() {
    let mut table = GameTable::new();
    let id = Uuid::from_u128(11);
    table.create_game(Some(id)).unwrap();
    let first = Move::new((1, 1), Player::X);
    let second = Move::new((2, 2), Player::X);
    let snapshot = table.add_move(id, first).unwrap();
    assert_eq!(snapshot.moves, vec![first]);
    let snapshot = table.add_move(id, second).unwrap();
    assert_eq!(snapshot.moves, vec![first, second]);
    assert_eq!(snapshot.game_id, id);
    assert_eq!(table.get_game_data(id).unwrap(), snapshot);
}

#[test]
fn subscriber_sees_latest_snapshot() {
    let mut table = GameTable::new();
    let id = Uuid::from_u128(21);
    table.create_game(Some(id)).unwrap();
    let (tx, rx) = tokio::sync::watch::channel(table.get_game_data(id).unwrap());
    let first = Move::new((4, 4), Player::X);
    let second = Move::new((3, 3), Player::O);
    tx.send(table.add_move(id, first).unwrap()).unwrap();
    assert_eq!(rx.borrow().moves, vec![first]);
    // a subscriber that does not read in between only sees the newest state
    tx.send(table.add_move(id, second).unwrap()).unwrap();
    assert!(rx.has_changed().unwrap());
    assert_eq!(rx.borrow().moves, vec![first, second]);
}

#[test]
fn error_messages() {
    assert_eq!(CacheProviderErrorKind::GameExists.to_string(), "the game allready exists");
    assert_eq!(CacheProviderErrorKind::KeyNotFound.to_string(), "the game does not exist");
    assert_eq!(
        CacheProviderErrorKind::LockError.to_string(),
        "could not aquire lock on hashmap"
    );
}

#[test]
fn creating_without_an_id_succeeds_on_an_empty_table() {
    let mut table = GameTable::new();
    let id = table.create_game(None).unwrap();
    assert!(table.game_exists(id));
    assert_eq!(table.get_games(), vec![id]);
}
