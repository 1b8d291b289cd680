//! The relay side: which sessions are connected, who gets a message, and
//! what a session does with what comes in.
//!
//! Sockets and actors belong to the caller. It keeps the address of each
//! session under the number that [`Server::handle_connect`] gives out, and
//! sends to the numbers that [`Server::broadcast_message`] returns.

use vstd::prelude::*;
use vstd::std_specs::iter::IteratorSpec;
use std::collections::HashSet;

verus! {

broadcast use vstd::std_specs::hash::group_hash_axioms;

/// `rand::rngs::ThreadRng`, a handle to the random number generator of a
/// thread.
#[verifier::external_type_specification]
#[verifier::external_body]
pub struct ExThreadRng(rand::rngs::ThreadRng);

/// `rand::thread_rng`: the random number generator of the current thread.
/// Nothing is known of it.
#[verifier::external_body]
fn thread_rng() -> (out: rand::rngs::ThreadRng) {
    rand::thread_rng()
}

/// `rand::Rng::gen` for a `usize`: a random number. Any number may come
/// back.
#[verifier::external_body]
fn random_number(rng: &mut rand::rngs::ThreadRng) -> (out: usize) {
    rand::Rng::gen::<usize>(rng)
}

/// A text for a session to send to its peer.
#[derive(Debug, PartialEq, Eq)]
pub struct Message(pub String);

impl Clone for Message {
    fn clone(&self) -> (out: Self)
        ensures
            out == *self,
    {
        Message(self.0.clone())
    }
}

/// A session has ended.
#[derive(Clone, Copy, Debug, PartialEq, Eq)]
pub struct Disconnect {
    pub id: usize,
}

/// A session has received a text from its peer.
#[derive(Debug, PartialEq, Eq)]
pub struct ClientMessage {
    pub id: usize,
    pub message: String,
}

impl Clone for ClientMessage {
    fn clone(&self) -> (out: Self)
        ensures
            out == *self,
    {
        ClientMessage { id: self.id, message: self.message.clone() }
    }
}

/// Whether `out` holds, each once, those of the first `upto` of `walked`
/// that are not `skip`, and nothing else.
spec fn gathered(walked: Seq<usize>, upto: int, skip: usize, out: Seq<usize>) -> bool {
    &&& out.no_duplicates()
    &&& forall|i: int|
        0 <= i < out.len() ==> out[i] != skip && walked.take(upto).contains(#[trigger] out[i])
    &&& forall|j: int| 0 <= j < upto && walked[j] != skip ==> out.contains(#[trigger] walked[j])
}

/// Gathering goes on with the next of `walked`: it is taken unless it is
/// `skip`.
proof fn lemma_gather_step(walked: Seq<usize>, upto: int, skip: usize, out: Seq<usize>)
    requires
        walked.no_duplicates(),
        0 <= upto < walked.len(),
        gathered(walked, upto, skip, out),
    ensures
        walked[upto] == skip ==> gathered(walked, upto + 1, skip, out),
        walked[upto] != skip ==> gathered(walked, upto + 1, skip, out.push(walked[upto])),
{
    let value = walked[upto];
    let more = walked.take(upto + 1);
    assert forall|i: int| 0 <= i < out.len() implies more.contains(#[trigger] out[i]) by {
        let j = walked.take(upto).index_of(out[i]);
        assert(more[j] == out[i]);
    }
    assert(more[upto] == value);
    if value != skip {
        let longer = out.push(value);
        assert forall|i: int, k: int| 0 <= i < longer.len() && 0 <= k < longer.len() && i
            != k implies longer[i] != longer[k] by {
            if i == out.len() || k == out.len() {
                let other = if i == out.len() { k } else { i };
                let j = walked.take(upto).index_of(out[other]);
                assert(walked[j] == out[other]);
            }
        }
        assert forall|i: int| 0 <= i < longer.len() implies longer[i] != skip && more.contains(
            #[trigger] longer[i],
        ) by {
            if i < out.len() {
                assert(longer[i] == out[i]);
            }
        }
        assert forall|j: int| 0 <= j < upto + 1 && walked[j] != skip implies longer.contains(
            #[trigger] walked[j],
        ) by {
            if j < upto {
                let at = out.index_of(walked[j]);
                assert(longer[at] == walked[j]);
            } else {
                assert(longer[out.len() as int] == value);
            }
        }
    }
}

/// What has been gathered from all of `walked` is all of it but `skip`.
proof fn lemma_gather_all(walked: Seq<usize>, skip: usize, out: Seq<usize>)
    requires
        gathered(walked, walked.len() as int, skip, out),
    ensures
        out.to_set() == walked.to_set().remove(skip),
{
    assert(walked.take(walked.len() as int) == walked);
    assert forall|value: usize| out.to_set().contains(value) <==> walked.to_set().remove(
        skip,
    ).contains(value) by {
        if out.contains(value) {
            let i = out.index_of(value);
            assert(walked.contains(out[i]));
        }
        if walked.contains(value) && value != skip {
            let j = walked.index_of(value);
            assert(out.contains(walked[j]));
        }
    }
    assert(out.to_set() =~= walked.to_set().remove(skip));
}

/// The relay: it knows which sessions are connected.
pub struct Server {
    sessions: HashSet<usize>,
    rng: rand::rngs::ThreadRng,
}

impl View for Server {
    type V = Set<usize>;

    /// The numbers of the connected sessions.
    closed spec fn view(&self) -> Set<usize> {
        self.sessions@
    }
}

impl Server {
    /// A server without sessions.
    pub fn new() -> (out: Self)
        ensures
            out@ == Set::<usize>::empty(),
    {
        Server { sessions: HashSet::new(), rng: thread_rng() }
    }

    /// Lists the session `id` as connected.
    pub fn register(&mut self, id: usize)
        ensures
            final(self)@ == old(self)@.insert(id),
    {
        self.sessions.insert(id);
    }

    /// A session connects: it is listed under a random number, which is
    /// returned. Should the number be in use, the session takes the place of
    /// the one that had it.
    pub fn handle_connect(&mut self) -> (id: usize)
        ensures
            final(self)@ == old(self)@.insert(id),
    {
        let id = random_number(&mut self.rng);
        self.sessions.insert(id);
        id
    }

    /// A session has ended: it is listed no more.
    pub fn handle_disconnect(&mut self, message_received: Disconnect)
        ensures
            final(self)@ == old(self)@.remove(message_received.id),
    {
        self.sessions.remove(&message_received.id);
    }

    /// The sessions that get a message which the session `skip_id` has
    /// sent: all the others, each once, in no order that could be told
    /// beforehand.
    pub fn broadcast_message(&self, skip_id: usize) -> (out: Vec<usize>)
        ensures
            out@.to_set() == self@.remove(skip_id),
            out@.no_duplicates(),
    {
        let mut out: Vec<usize> = Vec::new();
        let ghost walked = self.sessions.iter().remaining().unref();
        let ghost mut upto: int = 0;
        for id in it: self.sessions.iter()
            invariant
                it.seq() == self.sessions.iter().remaining(),
                walked == it.seq().unref(),
                walked.no_duplicates(),
                upto == it.index(),
                gathered(walked, upto, skip_id, out@),
        {
            proof {
                lemma_gather_step(walked, upto, skip_id, out@);
                upto = upto + 1;
            }
            if *id != skip_id {
                out.push(*id);
            }
        }
        proof {
            lemma_gather_all(walked, skip_id, out@);
        }
        out
    }

    /// A session has received a text: the sessions to pass it on to.
    pub fn handle_client_message(&self, message_received: &ClientMessage) -> (out: Vec<usize>)
        ensures
            out@.to_set() == self@.remove(message_received.id),
            out@.no_duplicates(),
    {
        self.broadcast_message(message_received.id)
    }
}

/// A peer that has been silent for longer than this is given up: ten
/// seconds, in milliseconds.
pub const CLIENT_TIMEOUT: u64 = 10_000;

/// The time between two heartbeats: five seconds, in milliseconds.
pub const HEARTBEAT_INTERVAL: u64 = 5_000;

/// What has come in from the peer of a session.
#[derive(Debug, PartialEq, Eq)]
pub enum Incoming {
    /// The transport has failed.
    Failed,
    /// A ping, with its payload.
    Ping(Vec<u8>),
    /// A pong.
    Pong,
    /// The peer closes the connection.
    Close,
    /// A text.
    Text(String),
    /// Anything else.
    Other,
}

/// What a session is to do.
#[derive(Debug, PartialEq, Eq)]
pub enum Reaction {
    /// Nothing.
    Nothing,
    /// Send a ping.
    Ping,
    /// Answer a ping, with its payload.
    Pong(Vec<u8>),
    /// Hand a text to the server.
    Forward(ClientMessage),
    /// Close the connection and stop.
    CloseAndStop,
    /// Stop.
    Stop,
}

/// A session of the relay.
#[derive(Clone, Copy, Debug, PartialEq, Eq)]
pub struct WebSocketSession {
    /// When the peer was last heard of, in milliseconds on the caller's
    /// monotonic clock.
    pub heartbeat: u64,
    /// The number under which the server lists the session.
    pub id: usize,
}

impl WebSocketSession {
    /// Whether the peer has been silent for too long at time `now`.
    pub open spec fn is_silent(&self, now: u64) -> bool {
        now >= self.heartbeat && now - self.heartbeat > CLIENT_TIMEOUT
    }

    /// A heartbeat at time `now`: a peer that has been silent for longer
    /// than `CLIENT_TIMEOUT` is given up, any other is pinged.
    pub fn start_heartbeating(&self, now: u64) -> (out: Reaction)
        ensures
            out == (if self.is_silent(now) {
                Reaction::Stop
            } else {
                Reaction::Ping
            }),
    {
        if now >= self.heartbeat && now - self.heartbeat > CLIENT_TIMEOUT {
            Reaction::Stop
        } else {
            Reaction::Ping
        }
    }

    /// What the session does with what has come in at time `now`. A ping is
    /// answered and a text handed to the server under the session's number; a
    /// close closes, and a failure stops the session. Pings and pongs show
    /// that the peer is there.
    pub fn handle(&mut self, message_received: Incoming, now: u64) -> (out: Reaction)
        ensures
            final(self).id == old(self).id,
            final(self).heartbeat == (if message_received is Ping || message_received is Pong {
                now
            } else {
                old(self).heartbeat
            }),
            match message_received {
                Incoming::Failed => out == Reaction::Stop,
                Incoming::Ping(payload) => out == Reaction::Pong(payload),
                Incoming::Pong => out == Reaction::Nothing,
                Incoming::Close => out == Reaction::CloseAndStop,
                Incoming::Text(text) => out == Reaction::Forward(
                    ClientMessage { id: old(self).id, message: text },
                ),
                Incoming::Other => out == Reaction::Nothing,
            },
    {
        match message_received {
            Incoming::Failed => Reaction::Stop,
            Incoming::Ping(payload) => {
                self.heartbeat = now;
                Reaction::Pong(payload)
            },
            Incoming::Pong => {
                self.heartbeat = now;
                Reaction::Nothing
            },
            Incoming::Close => Reaction::CloseAndStop,
            Incoming::Text(text) => Reaction::Forward(ClientMessage { id: self.id, message: text }),
            Incoming::Other => Reaction::Nothing,
        }
    }
}

} // verus!
