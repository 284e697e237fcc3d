//! The registry: the directory from session identifiers to delivery handles,
//! and the router of envelopes.

use vstd::prelude::*;
use crate::wire::{envelope_text, ClientMessage, Message};

verus! {

/// The reserved message type of a liveness ping, which is never routed.
pub open spec fn heart_tag() -> Seq<char> {
    "heart"@
}

/// The registry after `id` was connected with handle `h`.
pub open spec fn connected<H>(m: Map<Seq<char>, H>, id: Seq<char>, h: H) -> Map<Seq<char>, H> {
    m.insert(id, h)
}

/// The registry after `id` was disconnected.
pub open spec fn disconnected<H>(m: Map<Seq<char>, H>, id: Seq<char>) -> Map<Seq<char>, H> {
    m.remove(id)
}

/// Where a raw payload of the given type goes: nowhere for a liveness ping or
/// an absent receiver, else to the receiver's handle.
pub open spec fn target<H>(m: Map<Seq<char>, H>, message_type: Seq<char>, receiver: Seq<char>) -> Option<H> {
    if message_type == heart_tag() || !m.contains_key(receiver) {
        None
    } else {
        Some(m[receiver])
    }
}

/// What routing an envelope with these fields delivers: the receiver's handle
/// and the envelope's JSON text, or nothing.
pub open spec fn routed<H>(
    m: Map<Seq<char>, H>,
    message_type: Seq<char>,
    receiver: Seq<char>,
    sender: Seq<char>,
    message: Seq<char>,
) -> Option<(H, Seq<char>)> {
    match target(m, message_type, receiver) {
        Some(h) => Some((h, envelope_text(message_type, receiver, sender, message))),
        None => None,
    }
}

/// The registry after connecting each identifier of `ops` with its handle,
/// in order.
pub open spec fn connected_all<H>(m: Map<Seq<char>, H>, ops: Seq<(Seq<char>, H)>) -> Map<
    Seq<char>,
    H,
>
    decreases ops.len(),
{
    if ops.len() == 0 {
        m
    } else {
        connected(connected_all(m, ops.drop_last()), ops.last().0, ops.last().1)
    }
}

/// Once `id` is connected with `h`, an envelope addressed to `id` that is not
/// a liveness ping is delivered to `h`, as the JSON text of exactly the
/// submitted fields.
pub proof fn lemma_connect_then_route<H>(
    m: Map<Seq<char>, H>,
    id: Seq<char>,
    h: H,
    message_type: Seq<char>,
    sender: Seq<char>,
    message: Seq<char>,
)
    requires
        message_type != heart_tag(),
    ensures
        routed(connected(m, id, h), message_type, id, sender, message) == Some(
            (h, envelope_text(message_type, id, sender, message)),
        ),
{
}

/// An envelope whose receiver is not registered is delivered to no handle.
pub proof fn lemma_absent_receiver_dropped<H>(
    m: Map<Seq<char>, H>,
    message_type: Seq<char>,
    receiver: Seq<char>,
    sender: Seq<char>,
    message: Seq<char>,
)
    requires
        !m.contains_key(receiver),
    ensures
        routed(m, message_type, receiver, sender, message) is None,
{
}

/// After `id` is disconnected, whether it was registered or not, an envelope
/// addressed to `id` is delivered to no handle; disconnecting twice is the
/// same as disconnecting once.
pub proof fn lemma_disconnect_then_route<H>(
    m: Map<Seq<char>, H>,
    id: Seq<char>,
    message_type: Seq<char>,
    sender: Seq<char>,
    message: Seq<char>,
)
    ensures
        routed(disconnected(m, id), message_type, id, sender, message) is None,
        disconnected(disconnected(m, id), id) == disconnected(m, id),
{
    assert(disconnected(disconnected(m, id), id) =~= disconnected(m, id));
}

/// Of two handles connected under one identifier, only the later one
/// receives what is routed to that identifier afterwards.
pub proof fn lemma_last_connect_wins<H>(
    m: Map<Seq<char>, H>,
    id: Seq<char>,
    first: H,
    second: H,
    message_type: Seq<char>,
    sender: Seq<char>,
    message: Seq<char>,
)
    requires
        message_type != heart_tag(),
    ensures
        routed(connected(connected(m, id, first), id, second), message_type, id, sender, message)
            == Some((second, envelope_text(message_type, id, sender, message))),
{
}

/// A liveness ping is delivered to no handle, whatever its receiver.
pub proof fn lemma_heart_never_delivered<H>(
    m: Map<Seq<char>, H>,
    receiver: Seq<char>,
    sender: Seq<char>,
    message: Seq<char>,
)
    ensures
        routed(m, heart_tag(), receiver, sender, message) is None,
{
}

/// No registration is lost: after a series of connects, each identifier in it
/// is reachable through the handle it was last connected with.
pub proof fn lemma_connects_all_kept<H>(m: Map<Seq<char>, H>, ops: Seq<(Seq<char>, H)>, i: int)
    requires
        0 <= i < ops.len(),
        forall|j: int| i < j < ops.len() ==> #[trigger] ops[j].0 != ops[i].0,
    ensures
        connected_all(m, ops).contains_key(ops[i].0),
        connected_all(m, ops)[ops[i].0] == ops[i].1,
    decreases ops.len(),
{
    if i < ops.len() - 1 {
        let rest = ops.drop_last();
        assert forall|j: int| i < j < rest.len() implies #[trigger] rest[j].0 != rest[i].0 by {
            assert(rest[j] == ops[j]);
        }
        lemma_connects_all_kept(m, rest, i);
        assert(rest[i] == ops[i]);
        assert(ops.last().0 != ops[i].0);
    }
}

/// A request to register `addr` as the handle of session `uuid`.
pub struct Connect<H> {
    pub uuid: String,
    pub addr: H,
}

/// A request to remove the registration of session `uuid`.
pub struct Disconnect {
    pub uuid: String,
}

/// The process-wide directory of reachable sessions.
pub struct RemoteServer<H> {
    sessions: Vec<(String, H)>,
    contents: Ghost<Map<Seq<char>, H>>,
}

impl<H> View for RemoteServer<H> {
    type V = Map<Seq<char>, H>;

    closed spec fn view(&self) -> Map<Seq<char>, H> {
        self.contents@
    }
}

impl<H> RemoteServer<H> {
    /// Each identifier is held once, and the entries are exactly the map.
    pub closed spec fn wf(&self) -> bool {
        &&& forall|i: int, j: int|
            0 <= i < j < self.sessions@.len() ==> #[trigger] self.sessions@[i].0@
                != #[trigger] self.sessions@[j].0@
        &&& forall|i: int|
            0 <= i < self.sessions@.len() ==> {
                &&& self.contents@.contains_key(#[trigger] self.sessions@[i].0@)
                &&& self.contents@[self.sessions@[i].0@] == self.sessions@[i].1
            }
        &&& forall|k: Seq<char>|
            #[trigger] self.contents@.contains_key(k) ==> exists|i: int|
                0 <= i < self.sessions@.len() && #[trigger] self.sessions@[i].0@ == k
    }

    /// An empty registry.
    pub fn new() -> (r: Self)
        ensures
            r.wf(),
            r@ == Map::<Seq<char>, H>::empty(),
    {
        RemoteServer { sessions: Vec::new(), contents: Ghost(Map::empty()) }
    }

    /// The position of `id` among the entries, if it is registered.
    fn position(&self, id: &String) -> (r: Option<usize>)
        requires
            self.wf(),
        ensures
            match r {
                Some(i) => i < self.sessions@.len() && self.sessions@[i as int].0@ == id@,
                None => !self@.contains_key(id@),
            },
    {
        let mut i: usize = 0;
        while i < self.sessions.len()
            invariant
                self.wf(),
                i <= self.sessions@.len(),
                forall|j: int| 0 <= j < i ==> self.sessions@[j].0@ != id@,
            decreases self.sessions@.len() - i,
        {
            if self.sessions[i].0 == *id {
                return Some(i);
            }
            i = i + 1;
        }
        None
    }

    /// The handle registered under `id`, if any.
    pub fn lookup(&self, id: &String) -> (r: Option<&H>)
        requires
            self.wf(),
        ensures
            r is Some == self@.contains_key(id@),
            r matches Some(h) ==> *h == self@[id@],
    {
        match self.position(id) {
            Some(i) => Some(&self.sessions[i].1),
            None => None,
        }
    }

    /// Registers `msg.addr` under `msg.uuid`, replacing any handle held there,
    /// and acknowledges with the identifier 0.
    pub fn connect(&mut self, msg: Connect<H>) -> (r: usize)
        requires
            old(self).wf(),
        ensures
            final(self).wf(),
            final(self)@ == connected(old(self)@, msg.uuid@, msg.addr),
            r == 0,
    {
        let Connect { uuid, addr } = msg;
        let ghost id = uuid@;
        let ghost h = addr;
        match self.position(&uuid) {
            Some(i) => {
                self.sessions.set(i, (uuid, addr));
            },
            None => {
                self.sessions.push((uuid, addr));
            },
        }
        self.contents = Ghost(self.contents@.insert(id, h));
        proof {
            assert forall|k: Seq<char>| #[trigger] self.contents@.contains_key(k) implies exists|i: int|
                0 <= i < self.sessions@.len() && #[trigger] self.sessions@[i].0@ == k by {
                if k != id {
                    let i = choose|i: int|
                        0 <= i < old(self).sessions@.len() && #[trigger] old(self).sessions@[i].0@ == k;
                    assert(self.sessions@[i].0@ == k);
                } else {
                    let j = if old(self)@.contains_key(id) {
                        choose|i: int| 0 <= i < old(self).sessions@.len() && #[trigger] old(self).sessions@[i].0@ == id
                    } else {
                        old(self).sessions@.len() as int
                    };
                    assert(self.sessions@[j].0@ == id);
                }
            }
        }
        0
    }

    /// Removes the registration of `msg.uuid`; nothing happens if it is absent.
    pub fn disconnect(&mut self, msg: &Disconnect)
        requires
            old(self).wf(),
        ensures
            final(self).wf(),
            final(self)@ == disconnected(old(self)@, msg.uuid@),
    {
        let ghost id = msg.uuid@;
        match self.position(&msg.uuid) {
            Some(i) => {
                let ghost before = self.sessions@;
                self.sessions.remove(i);
                self.contents = Ghost(self.contents@.remove(id));
                proof {
                    assert forall|a: int, b: int|
                        0 <= a < b < self.sessions@.len() implies #[trigger] self.sessions@[a].0@
                        != #[trigger] self.sessions@[b].0@ by {
                        let a0 = if a < i { a } else { a + 1 };
                        let b0 = if b < i { b } else { b + 1 };
                        assert(self.sessions@[a] == before[a0]);
                        assert(self.sessions@[b] == before[b0]);
                    }
                    assert forall|a: int| 0 <= a < self.sessions@.len() implies {
                        &&& self.contents@.contains_key(#[trigger] self.sessions@[a].0@)
                        &&& self.contents@[self.sessions@[a].0@] == self.sessions@[a].1
                    } by {
                        let a0 = if a < i { a } else { a + 1 };
                        assert(self.sessions@[a] == before[a0]);
                        assert(before[a0].0@ != before[i as int].0@);
                    }
                    assert forall|k: Seq<char>| #[trigger] self.contents@.contains_key(k) implies exists|a: int|
                        0 <= a < self.sessions@.len() && #[trigger] self.sessions@[a].0@ == k by {
                        let a0 = choose|a: int| 0 <= a < before.len() && #[trigger] before[a].0@ == k;
                        assert(a0 != i);
                        let a = if a0 < i { a0 } else { a0 - 1 };
                        assert(self.sessions@[a] == before[a0]);
                    }
                }
            },
            None => {
                proof {
                    assert(self.contents@.remove(id) =~= self.contents@);
                }
                self.contents = Ghost(self.contents@.remove(id));
            },
        }
    }
    /// Hands a raw payload to the receiver's handle: nothing for a liveness
    /// ping or an absent receiver.
    pub fn send_msg(&self, message_type: &String, receiver: &String, message: String) -> (r: Option<
        (&H, Message),
    >)
        requires
            self.wf(),
        ensures
            match target(self@, message_type@, receiver@) {
                Some(h) => r matches Some((g, m)) && *g == h && m.0@ == message@,
                None => r is None,
            },
    {
        let heart = "heart".to_owned();
        if *message_type == heart {
            None
        } else {
            match self.lookup(receiver) {
                Some(h) => Some((h, Message(message))),
                None => None,
            }
        }
    }

    /// Routes an envelope: a liveness ping is discarded, an envelope for a
    /// registered receiver is delivered to its handle as JSON text, and one
    /// for an absent receiver is dropped.
    pub fn route(&self, msg: &ClientMessage) -> (r: Option<(&H, Message)>)
        requires
            self.wf(),
        ensures
            match routed(self@, msg.message_type@, msg.receiver@, msg.sender@, msg.message@) {
                Some((h, text)) => r matches Some((g, m)) && *g == h && m.0@ == text,
                None => r is None,
            },
    {
        let heart = "heart".to_owned();
        if msg.message_type == heart {
            None
        } else {
            let json = msg.to_json();
            self.send_msg(&msg.message_type, &msg.receiver, json)
        }
    }
}

} // verus!
