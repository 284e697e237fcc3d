//! One client's connection: its lifecycle and what it does with each frame.

use vstd::prelude::*;
use crate::remote_server::{Connect, Disconnect};
use crate::wire::ClientMessage;

verus! {

/// The stage of a session's lifecycle.
#[derive(PartialEq, Eq, Structural, Clone, Copy, Debug)]
pub enum Phase {
    Connecting,
    Active,
    Closing,
    Closed,
}

/// An inbound frame, with a text frame already decoded as an envelope.
pub enum Frame {
    Ping(Vec<u8>),
    Text(ClientMessage),
    /// A text frame that did not decode as an envelope.
    Malformed,
    Binary(Vec<u8>),
    /// Any other frame, which carries no meaning here.
    Other,
}

/// What the connection does in answer to a frame.
pub enum Reply {
    /// Answer a ping with a pong carrying the same bytes.
    Pong(Vec<u8>),
    /// Submit the envelope to the registry for routing.
    Submit(ClientMessage),
    /// Send the bytes back as a binary frame.
    Echo(Vec<u8>),
    /// Close the connection.
    Stop,
    /// Do nothing.
    Nothing,
}

/// The route prefix in front of a session identifier.
pub open spec fn route_prefix() -> Seq<char> {
    "/remote/"@
}

/// The session identifier in a request path: what follows the route prefix.
pub open spec fn account_spec(path: Seq<char>) -> Option<Seq<char>> {
    if path.len() >= route_prefix().len() && path.subrange(0, route_prefix().len() as int)
        == route_prefix() {
        Some(path.subrange(route_prefix().len() as int, path.len() as int))
    } else {
        None
    }
}

/// The session identifier of a connection request to `path`, if the path
/// lies under the route prefix.
pub fn account_of_path(path: &str) -> (r: Option<String>)
    ensures
        match account_spec(path@) {
            Some(a) => r matches Some(s) && s@ == a,
            None => r is None,
        },
{
    let n = path.unicode_len();
    let prefix = "/remote/";
    proof {
        reveal_strlit("/remote/");
    }
    if n < 8 {
        return None;
    }
    let head = path.substring_char(0, 8).to_owned();
    if head != prefix.to_owned() {
        return None;
    }
    Some(path.substring_char(8, n).to_owned())
}

/// One client's session.
pub struct Ws {
    /// The identifier the registry acknowledged the session with.
    pub id: usize,
    /// The session identifier the client is addressed by.
    pub uuid: String,
    pub phase: Phase,
}

impl Ws {
    /// A session for `uuid`, not yet registered.
    pub fn new(uuid: String) -> (r: Ws)
        ensures
            r.id == 0,
            r.uuid@ == uuid@,
            r.phase == Phase::Connecting,
    {
        Ws { id: 0, uuid, phase: Phase::Connecting }
    }

    /// The registration to request when the transport is up: this session's
    /// identifier with the handle that writes to its own transport.
    pub fn started<H>(&self, addr: H) -> (r: Connect<H>)
        ensures
            r.uuid@ == self.uuid@,
            r.addr == addr,
    {
        Connect { uuid: self.uuid.clone(), addr }
    }

    /// Takes the registry's answer to the registration: an acknowledgment
    /// makes the session active; none means the registry could not be reached,
    /// and the session closes. Returns whether the session goes on.
    pub fn connected(&mut self, ack: Option<usize>) -> (r: bool)
        requires
            old(self).phase == Phase::Connecting,
        ensures
            r == ack is Some,
            final(self).uuid == old(self).uuid,
            match ack {
                Some(id) => final(self).id == id && final(self).phase == Phase::Active,
                None => final(self).id == old(self).id && final(self).phase == Phase::Closing,
            },
    {
        match ack {
            Some(id) => {
                self.id = id;
                self.phase = Phase::Active;
                true
            },
            None => {
                self.phase = Phase::Closing;
                false
            },
        }
    }

    /// Answers one inbound frame. Only an active session consumes frames; a
    /// frame that is not an envelope closes it.
    pub fn handle(&mut self, frame: Frame) -> (r: Reply)
        ensures
            final(self).id == old(self).id,
            final(self).uuid == old(self).uuid,
            old(self).phase != Phase::Active ==> r is Nothing && *final(self) == *old(self),
            old(self).phase == Phase::Active ==> match frame {
                Frame::Ping(b) => r == Reply::Pong(b) && final(self).phase == Phase::Active,
                Frame::Text(m) => r == Reply::Submit(m) && final(self).phase == Phase::Active,
                Frame::Malformed => r is Stop && final(self).phase == Phase::Closing,
                Frame::Binary(b) => r == Reply::Echo(b) && final(self).phase == Phase::Active,
                Frame::Other => r is Nothing && final(self).phase == Phase::Active,
            },
    {
        if self.phase != Phase::Active {
            return Reply::Nothing;
        }
        match frame {
            Frame::Ping(b) => Reply::Pong(b),
            Frame::Text(m) => Reply::Submit(m),
            Frame::Malformed => {
                self.phase = Phase::Closing;
                Reply::Stop
            },
            Frame::Binary(b) => Reply::Echo(b),
            Frame::Other => Reply::Nothing,
        }
    }

    /// Closes the session, from whatever phase: the registration must be
    /// removed on every way out.
    pub fn stopping(&mut self) -> (r: Disconnect)
        ensures
            r.uuid@ == old(self).uuid@,
            final(self).uuid == old(self).uuid,
            final(self).id == old(self).id,
            final(self).phase == Phase::Closed,
    {
        self.phase = Phase::Closed;
        Disconnect { uuid: self.uuid.clone() }
    }
}

} // verus!
