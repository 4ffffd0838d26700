//! Per-connection session state and the multiplexer's decision step.
//!
//! One connection is serviced by an unbounded loop that races three event
//! sources — a new bidirectional stream, a new unidirectional stream, and a
//! datagram — and reads whichever is ready first into a message. The loop
//! itself suspends on the transport; every decision it takes is made here:
//! [`Session::handle_event`] maps each inbound event to the single action
//! owed for it, and tracks whether the connection is still alive. Events on
//! one session are fully serialized: one event is handled to completion,
//! reply included, before the next is raced for.

use vstd::prelude::*;

use crate::protocol::{ack_payload, build_ack};
use crate::utf8::{check_utf8, is_valid_utf8};

verus! {

/// Every event's payload is read into a buffer of exactly this many bytes;
/// one read is one message, and a longer message is silently truncated.
pub const READ_BUFFER_LEN: usize = 65536;

/// How the transport endpoint is to be bound: on an ephemeral, OS-assigned
/// port, with a keep-alive probe to detect idle-but-alive peers.
#[derive(Clone, Copy, Debug, PartialEq, Eq, Structural)]
pub struct TransportConfig {
    /// Zero: the OS assigns the port, so startup never collides.
    pub bind_port: u16,
    /// Seconds between keep-alive probes.
    pub keep_alive_secs: u64,
}

impl TransportConfig {
    /// The one configuration the service binds with.
    pub fn new() -> (c: TransportConfig)
        ensures
            c.bind_port == 0,
            c.keep_alive_secs == 3,
    {
        TransportConfig { bind_port: 0, keep_alive_secs: 3 }
    }
}

/// The three channel kinds a message can arrive on.
#[derive(Clone, Copy, Debug, PartialEq, Eq, Structural)]
pub enum ChannelKind {
    Bi,
    Uni,
    Datagram,
}

/// One inbound event on a connection, as the multiplexer loop sees it.
#[derive(Debug)]
pub enum Event {
    /// A read on a freshly accepted bidirectional stream yielded `payload`.
    BiMessage { payload: Vec<u8> },
    /// A read on a freshly accepted unidirectional stream yielded `payload`.
    UniMessage { payload: Vec<u8> },
    /// A datagram arrived carrying `payload`.
    DatagramMessage { payload: Vec<u8> },
    /// A read on a bidirectional stream ended with no new bytes.
    BiIdle,
    /// A read on a unidirectional stream ended with no new bytes.
    UniIdle,
    /// An accept, read, write or send on the transport failed.
    TransportError,
}

/// Why a session's loop is to stop.
#[derive(Clone, Copy, Debug, PartialEq, Eq, Structural)]
pub enum TermReason {
    /// An inbound payload was not valid UTF-8 text.
    Decode,
    /// The transport reported an error.
    Transport,
    /// The session had already been terminated.
    Closed,
}

/// What the loop owes for one event: at most one reply, or its end.
#[derive(Debug)]
pub enum Action {
    /// Write the payload on the same bidirectional stream's write half.
    ReplyBi(Vec<u8>),
    /// Open a new unidirectional outbound stream and write the payload there.
    ReplyUni(Vec<u8>),
    /// Send the payload as a new datagram.
    ReplyDatagram(Vec<u8>),
    /// No data this event; race for the next one.
    NoReply,
    /// Stop the loop; the connection is over.
    Terminate(TermReason),
}

/// Whether the event carries a message payload.
pub open spec fn is_message(e: Event) -> bool {
    e is BiMessage || e is UniMessage || e is DatagramMessage
}

/// The payload the event carries.
pub open spec fn payload_of(e: Event) -> Seq<u8>
    recommends
        is_message(e),
{
    match e {
        Event::BiMessage { payload } => payload@,
        Event::UniMessage { payload } => payload@,
        Event::DatagramMessage { payload } => payload@,
        _ => Seq::empty(),
    }
}

/// The channel kind the event arrived on.
pub open spec fn channel_of(e: Event) -> ChannelKind
    recommends
        is_message(e),
{
    match e {
        Event::BiMessage { .. } => ChannelKind::Bi,
        Event::UniMessage { .. } => ChannelKind::Uni,
        Event::DatagramMessage { .. } => ChannelKind::Datagram,
        _ => ChannelKind::Bi,
    }
}

/// Whether the action is a reply.
pub open spec fn is_reply(a: Action) -> bool {
    a is ReplyBi || a is ReplyUni || a is ReplyDatagram
}

/// The channel kind the reply goes out on.
pub open spec fn reply_channel(a: Action) -> ChannelKind
    recommends
        is_reply(a),
{
    match a {
        Action::ReplyBi(_) => ChannelKind::Bi,
        Action::ReplyUni(_) => ChannelKind::Uni,
        Action::ReplyDatagram(_) => ChannelKind::Datagram,
        _ => ChannelKind::Bi,
    }
}

/// The bytes the reply carries.
pub open spec fn reply_content(a: Action) -> Seq<u8>
    recommends
        is_reply(a),
{
    match a {
        Action::ReplyBi(payload) => payload@,
        Action::ReplyUni(payload) => payload@,
        Action::ReplyDatagram(payload) => payload@,
        _ => Seq::empty(),
    }
}

/// Whether the event ends an alive session: a transport failure, or a
/// message whose payload is not valid UTF-8 text.
pub open spec fn event_fails(e: Event) -> bool {
    e is TransportError || (is_message(e) && !is_valid_utf8(payload_of(e)))
}

/// One connection's session state: its random log-correlation identifier
/// and whether its loop is still running.
#[derive(Clone, Copy, Debug, PartialEq, Eq, Structural)]
pub struct Session {
    /// Drawn at accept time; used only for log correlation, with no
    /// uniqueness guarantee.
    pub session_id: u64,
    /// False once the loop has terminated; a dead session never replies.
    pub alive: bool,
}

/// The step relation of the session machine: how one event takes the
/// session from `pre` to `post` and which single action `a` it yields.
///
/// An alive session answers a valid text message with `ACK` plus the exact
/// message bytes, on the matching channel kind; a message that is not valid
/// UTF-8, or a transport failure, terminates the session; an empty read
/// yields no reply; a dead session only ever reports itself closed.
pub open spec fn step_ok(pre: Session, e: Event, post: Session, a: Action) -> bool {
    &&& post.session_id == pre.session_id
    &&& post.alive == (pre.alive && !event_fails(e))
    &&& if !pre.alive {
        a == Action::Terminate(TermReason::Closed)
    } else if is_message(e) && is_valid_utf8(payload_of(e)) {
        &&& is_reply(a)
        &&& reply_channel(a) == channel_of(e)
        &&& reply_content(a) == ack_payload(payload_of(e))
    } else if is_message(e) {
        a == Action::Terminate(TermReason::Decode)
    } else if e is TransportError {
        a == Action::Terminate(TermReason::Transport)
    } else {
        a is NoReply
    }
}

impl Session {
    /// A fresh, alive session under the given identifier.
    pub fn new(session_id: u64) -> (s: Session)
        ensures
            s.session_id == session_id,
            s.alive,
    {
        Session { session_id, alive: true }
    }

    /// A fresh, alive session under an identifier drawn at random.
    /// Collisions are acceptable: the identifier only correlates log lines.
    pub fn with_random_id() -> (s: Session)
        ensures
            s.alive,
    {
        Session::new(random_session_id())
    }

    /// Decides what one inbound event leads to. This is the whole of the
    /// multiplexer's per-event logic: the caller performs the returned
    /// action on the transport and races for the next event.
    pub fn handle_event(&mut self, e: Event) -> (a: Action)
        ensures
            step_ok(*old(self), e, *final(self), a),
    {
        if !self.alive {
            return Action::Terminate(TermReason::Closed);
        }
        match e {
            Event::BiMessage { payload } => {
                if check_utf8(payload.as_slice()) {
                    Action::ReplyBi(build_ack(payload.as_slice()))
                } else {
                    self.alive = false;
                    Action::Terminate(TermReason::Decode)
                }
            },
            Event::UniMessage { payload } => {
                if check_utf8(payload.as_slice()) {
                    Action::ReplyUni(build_ack(payload.as_slice()))
                } else {
                    self.alive = false;
                    Action::Terminate(TermReason::Decode)
                }
            },
            Event::DatagramMessage { payload } => {
                if check_utf8(payload.as_slice()) {
                    Action::ReplyDatagram(build_ack(payload.as_slice()))
                } else {
                    self.alive = false;
                    Action::Terminate(TermReason::Decode)
                }
            },
            Event::BiIdle => Action::NoReply,
            Event::UniIdle => Action::NoReply,
            Event::TransportError => {
                self.alive = false;
                Action::Terminate(TermReason::Transport)
            },
        }
    }
}

/// Relies on rand::random: draws a value from the thread-local generator.
/// Nothing is assumed of the value drawn.
#[verifier::external_body]
fn random_session_id() -> u64 {
    rand::random()
}

/// Law: a valid text message on a bidirectional stream is answered on that
/// same stream, and the reply is `ACK` followed by the exact message bytes.
/// The law holds for every message, so in particular for every message of
/// at most [`READ_BUFFER_LEN`] bytes, the most one read can yield.
pub proof fn lemma_bi_echo(pre: Session, e: Event, post: Session, a: Action)
    requires
        pre.alive,
        e is BiMessage,
        is_valid_utf8(payload_of(e)),
        step_ok(pre, e, post, a),
    ensures
        a is ReplyBi,
        reply_content(a) == ack_payload(payload_of(e)),
        post.alive,
{
}

/// Law: a valid text message on a unidirectional inbound stream is answered
/// on a new unidirectional outbound stream, and the reply is `ACK` followed
/// by the exact message bytes.
pub proof fn lemma_uni_echo(pre: Session, e: Event, post: Session, a: Action)
    requires
        pre.alive,
        e is UniMessage,
        is_valid_utf8(payload_of(e)),
        step_ok(pre, e, post, a),
    ensures
        a is ReplyUni,
        reply_content(a) == ack_payload(payload_of(e)),
        post.alive,
{
}

/// Law: a valid text message sent as a datagram is answered with a new
/// datagram, and the reply is `ACK` followed by the exact message bytes.
pub proof fn lemma_datagram_echo(pre: Session, e: Event, post: Session, a: Action)
    requires
        pre.alive,
        e is DatagramMessage,
        is_valid_utf8(payload_of(e)),
        step_ok(pre, e, post, a),
    ensures
        a is ReplyDatagram,
        reply_content(a) == ack_payload(payload_of(e)),
        post.alive,
{
}

/// Law: two valid messages arriving back-to-back on the same bidirectional
/// stream each get exactly one reply, in arrival order. The step relation
/// serializes the session: the first message's step completes, its single
/// reply included, before the second message's step begins, so the replies
/// cannot interleave with one another or with any other event's reply on
/// this connection.
pub proof fn lemma_back_to_back_in_order(
    pre: Session,
    e1: Event,
    mid: Session,
    a1: Action,
    e2: Event,
    post: Session,
    a2: Action,
)
    requires
        pre.alive,
        e1 is BiMessage,
        is_valid_utf8(payload_of(e1)),
        e2 is BiMessage,
        is_valid_utf8(payload_of(e2)),
        step_ok(pre, e1, mid, a1),
        step_ok(mid, e2, post, a2),
    ensures
        a1 is ReplyBi,
        reply_content(a1) == ack_payload(payload_of(e1)),
        mid.alive,
        a2 is ReplyBi,
        reply_content(a2) == ack_payload(payload_of(e2)),
        post.alive,
{
}

/// Law: a payload that is not valid UTF-8, on any channel kind, terminates
/// its own session — every later event on it yields a terminate action and
/// never a reply — while an independent session is untouched and still
/// echoes correctly.
pub proof fn lemma_failure_isolation(
    pre: Session,
    e_bad: Event,
    post: Session,
    a_bad: Action,
    other_pre: Session,
    e_ok: Event,
    other_post: Session,
    a_ok: Action,
)
    requires
        pre.alive,
        is_message(e_bad),
        !is_valid_utf8(payload_of(e_bad)),
        step_ok(pre, e_bad, post, a_bad),
        other_pre.alive,
        is_message(e_ok),
        is_valid_utf8(payload_of(e_ok)),
        step_ok(other_pre, e_ok, other_post, a_ok),
    ensures
        a_bad == Action::Terminate(TermReason::Decode),
        !post.alive,
        forall|e: Event, s: Session, a: Action|
            #[trigger] step_ok(post, e, s, a) ==> !is_reply(a) && !s.alive,
        is_reply(a_ok),
        reply_channel(a_ok) == channel_of(e_ok),
        reply_content(a_ok) == ack_payload(payload_of(e_ok)),
        other_post.alive,
{
}

} // verus!
