//! The ingest API: from a request path to an operation on the store and a
//! response for the sender.
//!
//! Only the first two segments after the leading slash are looked at:
//! `/heartbeat` and `/player/{count}`; what follows them is ignored.

use vstd::prelude::*;
use crate::count::{parse_count, read_count};
use crate::error::IngestError;
use crate::split::{find_piece_end, has_piece, piece, piece_start, range_equals, SLASH};
use crate::record::{heartbeat, player_count, LivenessState, RecordModel};
use crate::store::StateStore;

verus! {

/// An operation asked for by an inbound request.
#[derive(Clone, Copy, Debug, PartialEq, Eq, Structural)]
pub enum Request {
    /// The server says that it is alive.
    Heartbeat,
    /// The server says how many players it holds.
    PlayerCount(i64),
}

/// What the sender of a request is told.
#[derive(Clone, Copy, Debug, PartialEq, Eq, Structural)]
pub enum Response {
    /// The heartbeat was recorded.
    HeartbeatOk,
    /// The player count was recorded.
    PlayerCountOk,
    /// The player count is no integer, or is negative.
    InvalidCount,
    /// The path names no operation.
    NotFound,
}

/// The bytes of `heartbeat`.
pub open spec fn heartbeat_word() -> Seq<u8> {
    seq![104u8, 101u8, 97u8, 114u8, 116u8, 98u8, 101u8, 97u8, 116u8]
}

/// The bytes of `player`.
pub open spec fn player_word() -> Seq<u8> {
    seq![112u8, 108u8, 97u8, 121u8, 101u8, 114u8]
}

/// The request that a path stands for. The path is split at every slash
/// and its first piece, which is empty in a path that begins with a
/// slash, is dropped. The next piece names the operation, and for
/// `player` the piece after it holds the count.
pub open spec fn route(path: Seq<u8>) -> Result<Request, IngestError> {
    if !has_piece(path, SLASH, 1) {
        Err(IngestError::RouteNotFound)
    } else if piece(path, SLASH, 1) == heartbeat_word() {
        Ok(Request::Heartbeat)
    } else if piece(path, SLASH, 1) == player_word() {
        if !has_piece(path, SLASH, 2) {
            Err(IngestError::InvalidCount)
        } else {
            match parse_count(piece(path, SLASH, 2)) {
                Some(n) => Ok(Request::PlayerCount(n)),
                None => Err(IngestError::InvalidCount),
            }
        }
    } else {
        Err(IngestError::RouteNotFound)
    }
}

/// The record after a routed request was served at `now`. Only a
/// heartbeat and a count that is not negative change it.
pub open spec fn served(
    r: RecordModel,
    request: Result<Request, IngestError>,
    now: int,
) -> RecordModel {
    match request {
        Ok(Request::Heartbeat) => heartbeat(r, now),
        Ok(Request::PlayerCount(n)) => if n >= 0 {
            player_count(r, n as nat)
        } else {
            r
        },
        Err(_) => r,
    }
}

/// True if serving a routed request on `r` changes what the sink should
/// show, so that the reconciler must be woken.
pub open spec fn wakes(r: RecordModel, request: Result<Request, IngestError>) -> bool {
    match request {
        Ok(Request::Heartbeat) => r.state != LivenessState::Online,
        Ok(Request::PlayerCount(n)) => n >= 0 && r.state == LivenessState::Online,
        Err(_) => false,
    }
}

/// The response to a routed request.
pub open spec fn response_to(request: Result<Request, IngestError>) -> Response {
    match request {
        Ok(Request::Heartbeat) => Response::HeartbeatOk,
        Ok(Request::PlayerCount(n)) => if n >= 0 {
            Response::PlayerCountOk
        } else {
            Response::InvalidCount
        },
        Err(IngestError::InvalidCount) => Response::InvalidCount,
        Err(IngestError::RouteNotFound) => Response::NotFound,
    }
}

impl Response {
    /// The HTTP status code of the response.
    pub open spec fn spec_status(self) -> u16 {
        match self {
            Response::HeartbeatOk => 200,
            Response::PlayerCountOk => 200,
            Response::InvalidCount => 400,
            Response::NotFound => 404,
        }
    }

    /// The body of the response.
    pub open spec fn spec_body(self) -> Seq<char> {
        match self {
            Response::HeartbeatOk => "heartbeat ok"@,
            Response::PlayerCountOk => "update player ok"@,
            Response::InvalidCount => "Count is not a number"@,
            Response::NotFound => "404 Not found"@,
        }
    }

    /// True for the responses that acknowledge a request.
    pub open spec fn spec_is_success(self) -> bool {
        self == Response::HeartbeatOk || self == Response::PlayerCountOk
    }

    /// The HTTP status code of the response.
    #[verifier::when_used_as_spec(spec_status)]
    pub fn status(self) -> (code: u16)
        ensures
            code == self.spec_status(),
    {
        match self {
            Response::HeartbeatOk => 200,
            Response::PlayerCountOk => 200,
            Response::InvalidCount => 400,
            Response::NotFound => 404,
        }
    }

    /// The body of the response.
    pub fn body(self) -> (text: &'static str)
        ensures
            text@ == self.spec_body(),
    {
        match self {
            Response::HeartbeatOk => "heartbeat ok",
            Response::PlayerCountOk => "update player ok",
            Response::InvalidCount => "Count is not a number",
            Response::NotFound => "404 Not found",
        }
    }

    /// True for the responses that acknowledge a request.
    #[verifier::when_used_as_spec(spec_is_success)]
    pub fn is_success(self) -> (yes: bool)
        ensures
            yes == self.spec_is_success(),
    {
        match self {
            Response::HeartbeatOk => true,
            Response::PlayerCountOk => true,
            _ => false,
        }
    }
}

/// Routes a request path.
pub fn parse_request(path: &[u8]) -> (request: Result<Request, IngestError>)
    ensures
        request == route(path@),
{
    proof {
        reveal_with_fuel(piece_start, 3);
    }
    let first_end: usize = find_piece_end(path, SLASH, 0);
    if first_end >= path.len() {
        return Err(IngestError::RouteNotFound);
    }
    let name_start: usize = first_end + 1;
    let name_end: usize = find_piece_end(path, SLASH, name_start);
    let heartbeat: [u8; 9] = [104, 101, 97, 114, 116, 98, 101, 97, 116];
    let player: [u8; 6] = [112, 108, 97, 121, 101, 114];
    assert(heartbeat@ =~= heartbeat_word());
    assert(player@ =~= player_word());
    if range_equals(path, name_start, name_end, heartbeat.as_slice()) {
        Ok(Request::Heartbeat)
    } else if range_equals(path, name_start, name_end, player.as_slice()) {
        if name_end >= path.len() {
            Err(IngestError::InvalidCount)
        } else {
            let count_start: usize = name_end + 1;
            let count_end: usize = find_piece_end(path, SLASH, count_start);
            match read_count(path, count_start, count_end) {
                Some(n) => Ok(Request::PlayerCount(n)),
                None => Err(IngestError::InvalidCount),
            }
        }
    } else {
        Err(IngestError::RouteNotFound)
    }
}

/// Serves a routed request on the store at `now`. Returns the response
/// for the sender and whether the reconciler must be woken. A refused
/// request leaves the store as it was.
pub fn serve(store: &mut StateStore, request: Result<Request, IngestError>, now: i64) -> (reply: (
    Response,
    bool,
))
    ensures
        final(store)@ == served(old(store)@, request, now as int),
        reply.0 == response_to(request),
        reply.1 == wakes(old(store)@, request),
{
    match request {
        Ok(Request::Heartbeat) => {
            let wake = store.record_heartbeat(now);
            (Response::HeartbeatOk, wake)
        },
        Ok(Request::PlayerCount(n)) => {
            match store.record_player_count(n) {
                Ok(wake) => (Response::PlayerCountOk, wake),
                Err(_) => (Response::InvalidCount, false),
            }
        },
        Err(IngestError::InvalidCount) => (Response::InvalidCount, false),
        Err(IngestError::RouteNotFound) => (Response::NotFound, false),
    }
}

} // verus!
