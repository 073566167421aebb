//! Settings and failures of the networked backend, which keeps each game
//! as a JSON document in a Redis store and announces new states over its
//! publish/subscribe channel.
use vstd::prelude::*;

verus! {

/// The host name used when none is configured.
pub const DEFAULT_SERVER_HOSTNAME: &'static str = "localhost";

/// The port used when none is configured.
pub const DEFAULT_SERVER_PORT: u16 = 6379;

/// Where the networked backend's store is and how to log in.
#[derive(Debug, Clone)]
pub struct RedisProviderArgs {
    pub server_hostname: String,
    pub server_port: u16,
    pub username: Option<String>,
    pub password: Option<String>,
}

impl RedisProviderArgs {
    /// The default settings: `localhost:6379`, no credentials.
    pub fn new() -> (r: RedisProviderArgs)
        ensures
            r.server_hostname@ == "localhost"@,
            r.server_port == 6379,
            r.username is None,
            r.password is None,
    {
        proof {
            reveal_strlit("localhost");
        }
        RedisProviderArgs {
            server_hostname: String::from_str(DEFAULT_SERVER_HOSTNAME),
            server_port: DEFAULT_SERVER_PORT,
            username: None,
            password: None,
        }
    }
}

impl Default for RedisProviderArgs {
    fn default() -> (r: RedisProviderArgs)
        ensures
            r.server_hostname@ == "localhost"@,
            r.server_port == 6379,
            r.username is None,
            r.password is None,
    {
        RedisProviderArgs::new()
    }
}

/// Failures of the networked backend, each with the message of its cause.
#[derive(Debug, Clone, PartialEq, Eq)]
pub enum ErrorKind {
    Connection { message: String },
    Query { message: String },
    Deserialize { message: String },
    Serialize { message: String },
}

impl ErrorKind {
    pub open spec fn description(self) -> Seq<char> {
        match self {
            ErrorKind::Connection { message } => "the connection to redis could not be established: "@
                + message@,
            ErrorKind::Deserialize { message } => "the string from redis could not be serialized: "@
                + message@,
            ErrorKind::Query { message } => "there was an error querying redis: "@ + message@,
            ErrorKind::Serialize { message } => "the local object could not be serialized: "@
                + message@,
        }
    }

    /// A description of the failure for users, ending in its cause.
    pub fn to_string(&self) -> (r: String)
        ensures
            r@ == self.description(),
    {
        let (prefix, message) = match self {
            ErrorKind::Connection { message } => (
                "the connection to redis could not be established: ",
                message,
            ),
            ErrorKind::Deserialize { message } => (
                "the string from redis could not be serialized: ",
                message,
            ),
            ErrorKind::Query { message } => ("there was an error querying redis: ", message),
            ErrorKind::Serialize { message } => (
                "the local object could not be serialized: ",
                message,
            ),
        };
        let mut r = String::from_str(prefix);
        r.append(message.as_str());
        r
    }
}

} // verus!
