//! The contract of the live game stream: the messages a client may send,
//! the errors a session can end with, and how a connection path names the
//! game it watches.
use vstd::prelude::*;

use uuid::Uuid;

use crate::ids::{parse_uuid, parsed_uuid, uuid_value};

verus! {

/// Messages a client sends on the stream.
#[derive(Debug, Clone, PartialEq, Eq, Structural)]
pub enum IncommingMessage {
    Ping {},
}

/// Why a stream session failed.
#[derive(Debug, Clone, PartialEq, Eq)]
pub enum Error {
    InvalidUuid(String),
    GameNotFound,
    InvalidRole(String),
    HandShake(String),
    CouldNotSerialize(String),
    MakingMove(String),
    Subscribing(String),
    CouldNotSend(String),
}

/// The length of the run of characters of `s` before its first `/` (all of
/// `s` if it has none).
pub open spec fn before_slash(s: Seq<char>) -> int
    decreases s.len(),
{
    if s.len() == 0 || s[0] == '/' {
        0
    } else {
        1 + before_slash(s.drop_first())
    }
}

/// The second `/`-separated segment of a path (`"/<game_id>/<role>"` gives
/// `<game_id>`), if the path has a `/` at all.
pub open spec fn game_segment(path: Seq<char>) -> Option<Seq<char>> {
    let i = before_slash(path);
    if i >= path.len() {
        None
    } else {
        let rest = path.subrange(i + 1, path.len() as int);
        Some(rest.subrange(0, before_slash(rest)))
    }
}

proof fn lemma_before_slash_bounds(s: Seq<char>)
    ensures
        0 <= before_slash(s) <= s.len(),
        before_slash(s) < s.len() ==> s[before_slash(s)] == '/',
    decreases s.len(),
{
    if s.len() > 0 && s[0] != '/' {
        lemma_before_slash_bounds(s.drop_first());
    }
}

/// The position of the first `/` of `s` at or after `start`, or the length
/// of `s` if there is none.
fn find_slash(s: &str, start: usize) -> (r: usize)
    requires
        start <= s@.len(),
    ensures
        r == start + before_slash(s@.subrange(start as int, s@.len() as int)),
{
    let len = s.unicode_len();
    let mut i = start;
    while i < len
        invariant
            len == s@.len(),
            start <= i <= len,
            before_slash(s@.subrange(start as int, len as int)) == (i - start) + before_slash(
                s@.subrange(i as int, len as int),
            ),
        decreases len - i,
    {
        if s.get_char(i) == '/' {
            return i;
        }
        assert(s@.subrange(i as int, len as int).drop_first() =~= s@.subrange(
            i + 1,
            len as int,
        ));
        i += 1;
    }
    i
}

/// The segment of a connection path that names the game: what lies after
/// the first `/`, up to the next one.
pub fn path_game_segment(path: &str) -> (r: Option<&str>)
    ensures
        match game_segment(path@) {
            Some(seg) => r is Some && r->0@ == seg,
            None => r is None,
        },
{
    let len = path.unicode_len();
    let first = find_slash(path, 0);
    assert(path@.subrange(0, len as int) =~= path@);
    if first >= len {
        return None;
    }
    let end = find_slash(path, first + 1);
    proof {
        let rest = path@.subrange(first + 1, len as int);
        lemma_before_slash_bounds(rest);
        assert(path@.subrange(first + 1, end as int) =~= rest.subrange(0, before_slash(rest)));
    }
    Some(path.substring_char(first + 1, end))
}

/// The identifier read from the game segment `segment` of a path, given
/// the UUID parsed from it, if any.
pub fn game_id_from_parsed(segment: &str, parsed: Option<Uuid>) -> (r: Result<Uuid, Error>)
    ensures
        match parsed {
            Some(id) => r == Ok::<Uuid, Error>(id),
            None => r is Err && r->Err_0 is InvalidUuid && r->Err_0->InvalidUuid_0@
                == "Invalid game uuid: "@ + segment@,
        },
{
    match parsed {
        Some(id) => Ok(id),
        None => {
            let mut message = String::from_str("Invalid game uuid: ");
            message.append(segment);
            Err(Error::InvalidUuid(message))
        },
    }
}

/// The game a connection path `/<game_id>` (optionally followed by
/// `/<role>`) names; `InvalidUuid` if there is no segment or it is not a
/// UUID.
pub fn game_id_from_path(path: &str) -> (r: Result<Uuid, Error>)
    ensures
        match game_segment(path@) {
            None => r is Err && r->Err_0 is InvalidUuid && r->Err_0->InvalidUuid_0@
                == "No game uuid provided"@,
            Some(seg) => match parsed_uuid(seg) {
                Some(v) => r is Ok && uuid_value(r->Ok_0) == v,
                None => r is Err && r->Err_0 is InvalidUuid && r->Err_0->InvalidUuid_0@
                    == "Invalid game uuid: "@ + seg,
            },
        },
{
    match path_game_segment(path) {
        None => Err(Error::InvalidUuid(String::from_str("No game uuid provided"))),
        Some(segment) => game_id_from_parsed(segment, parse_uuid(segment)),
    }
}

} // verus!
