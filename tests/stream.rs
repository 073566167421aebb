use tictactoe_extreme::remote::ErrorKind;
use tictactoe_extreme::stream::{game_id_from_parsed, game_id_from_path, path_game_segment, Error};
use tictactoe_extreme::RedisProviderArgs;
use uuid::Uuid;

#[test]
fn path_segments() {
    assert_eq!(path_game_segment("/abc"), Some("abc"));
    assert_eq!(path_game_segment("/abc/player"), Some("abc"));
    assert_eq!(path_game_segment("/"), Some(""));
    assert_eq!(path_game_segment("x/y/z"), Some("y"));
    assert_eq!(path_game_segment("abc"), None);
    assert_eq!(path_game_segment(""), None);
}

#[test]
fn game_id_from_valid_path() {
    let id = Uuid::parse_str("550e8400-e29b-41d4-a716-446655440000").unwrap();
    assert_eq!(game_id_from_path("/550e8400-e29b-41d4-a716-446655440000"), Ok(id));
    assert_eq!(game_id_from_path("/550e8400-e29b-41d4-a716-446655440000/x"), Ok(id));
    assert_eq!(id.as_u128(), 0x550e8400e29b41d4a716446655440000);
}

#[test]
fn game_id_errors() {
    assert_eq!(
        game_id_from_path("no-slash"),
        Err(Error::InvalidUuid("No game uuid provided".to_string()))
    );
    assert_eq!(
        game_id_from_path("/not-a-uuid"),
        Err(Error::InvalidUuid("Invalid game uuid: not-a-uuid".to_string()))
    );
    assert_eq!(
        game_id_from_parsed("zz", None),
        Err(Error::InvalidUuid("Invalid game uuid: zz".to_string()))
    );
    let id = Uuid::from_u128(3);
    assert_eq!(game_id_from_parsed("whatever", Some(id)), Ok(id));
}

#[test]
fn redis_settings_and_errors() {
    let args = RedisProviderArgs::new();
    assert_eq!(args.server_hostname, "localhost");
    assert_eq!(args.server_port, 6379);
    assert!(args.username.is_none() && args.password.is_none());
    let e = ErrorKind::Query { message: "boom".to_string() };
    assert_eq!(e.to_string(), "there was an error querying redis: boom");
    let e = ErrorKind::Connection { message: "refused".to_string() };
    assert_eq!(
        e.to_string(),
        "the connection to redis could not be established: refused"
    );
    let e = ErrorKind::Deserialize { message: "eof".to_string() };
    assert_eq!(e.to_string(), "the string from redis could not be serialized: eof");
    let e = ErrorKind::Serialize { message: "x".to_string() };
    assert_eq!(e.to_string(), "the local object could not be serialized: x");
}
