//! The peer's side of its connection to the hub.
//!
//! The caller owns the socket, the heartbeat timer, the clock and the channel
//! of local events; it hands each event, with the clock's reading, to
//! [`PeerSession::step`] and carries out the action that comes back.

use crate::frame::{Frame, FrameView};
use crate::json::{json_string_literal, quote};
use crate::text::{begins_with, same_text};
use vstd::prelude::*;
use vstd::string::StringExecFns;

verus! {

/// Seconds between two heartbeats.
pub const HEARTBEAT_INTERVAL_SECS: u64 = 10;

/// The liveness window: a hub that has sent no pong for longer than this many
/// seconds is presumed dead.
pub const LIVENESS_WINDOW_SECS: u64 = 30;

/// Clock ticks in a second: the clock counts nanoseconds.
pub const TICKS_PER_SEC: u64 = 1_000_000_000;

/// Local events that may wait for the session; one that finds no room is
/// dropped.
pub const EVENT_BACKLOG: usize = 64;

/// A local event for the session: from the hotkey, or from shutdown.
#[derive(Clone, Copy, Debug, PartialEq, Eq)]
pub enum WebEvent {
    /// Terminate the local target and ask the fleet to do the same.
    SendTerminate,
    /// Close the connection.
    Stop,
}

/// Where the session stands. `last_seen` is the clock's reading when the last
/// pong arrived, or when the connection was made if none has.
#[derive(Clone, Copy, Debug, PartialEq, Eq)]
pub enum PeerPhase {
    /// No connection yet.
    Connecting,
    /// Connected; the frame that presents the identifier is on its way out.
    AwaitingAuthAck { last_seen: u64 },
    /// The identifier was presented; heartbeats run.
    Live { last_seen: u64 },
    /// Over.
    Closed,
}

/// Something that happens to the session.
#[derive(Debug, PartialEq, Eq)]
pub enum PeerEvent {
    /// The socket is open.
    Connected,
    /// The frame that presents the identifier was written.
    HandshakeSent,
    /// The hub sent a frame.
    Frame(Frame),
    /// The heartbeat timer fired.
    Heartbeat,
    /// A local event arrived.
    Local(WebEvent),
    /// Connecting, reading or writing failed.
    TransportFailed,
}

/// The value of a [`PeerEvent`].
pub enum PeerEventView {
    Connected,
    HandshakeSent,
    Frame(FrameView),
    Heartbeat,
    Local(WebEvent),
    TransportFailed,
}

impl View for PeerEvent {
    type V = PeerEventView;

    open spec fn view(&self) -> PeerEventView {
        match self {
            PeerEvent::Connected => PeerEventView::Connected,
            PeerEvent::HandshakeSent => PeerEventView::HandshakeSent,
            PeerEvent::Frame(frame) => PeerEventView::Frame(frame@),
            PeerEvent::Heartbeat => PeerEventView::Heartbeat,
            PeerEvent::Local(event) => PeerEventView::Local(*event),
            PeerEvent::TransportFailed => PeerEventView::TransportFailed,
        }
    }
}

impl Clone for PeerEvent {
    fn clone(&self) -> (copy: PeerEvent)
        ensures
            copy@ == self@,
    {
        match self {
            PeerEvent::Connected => PeerEvent::Connected,
            PeerEvent::HandshakeSent => PeerEvent::HandshakeSent,
            PeerEvent::Frame(frame) => PeerEvent::Frame(frame.clone()),
            PeerEvent::Heartbeat => PeerEvent::Heartbeat,
            PeerEvent::Local(event) => PeerEvent::Local(*event),
            PeerEvent::TransportFailed => PeerEvent::TransportFailed,
        }
    }
}

/// What the caller is to do after an event.
#[derive(Debug, PartialEq, Eq)]
pub enum PeerAction {
    /// Nothing.
    Idle,
    /// Send this text frame; a failure to send is a
    /// [`PeerEvent::TransportFailed`].
    Send(String),
    /// Send a ping; a failure to send is a [`PeerEvent::TransportFailed`].
    Ping,
    /// Terminate the local target, off the session's loop.
    Terminate,
    /// Terminate the local target, off the session's loop, and send this text
    /// frame.
    TerminateAndSend(String),
    /// Send a close frame, ignoring a failure, and end the session.
    Close,
    /// End the session and report the failure.
    Abort,
}

/// The value of a [`PeerAction`].
pub enum PeerActionView {
    Idle,
    Send(Seq<char>),
    Ping,
    Terminate,
    TerminateAndSend(Seq<char>),
    Close,
    Abort,
}

impl View for PeerAction {
    type V = PeerActionView;

    open spec fn view(&self) -> PeerActionView {
        match self {
            PeerAction::Idle => PeerActionView::Idle,
            PeerAction::Send(text) => PeerActionView::Send(text@),
            PeerAction::Ping => PeerActionView::Ping,
            PeerAction::Terminate => PeerActionView::Terminate,
            PeerAction::TerminateAndSend(text) => PeerActionView::TerminateAndSend(text@),
            PeerAction::Close => PeerActionView::Close,
            PeerAction::Abort => PeerActionView::Abort,
        }
    }
}

impl Clone for PeerAction {
    fn clone(&self) -> (copy: PeerAction)
        ensures
            copy@ == self@,
    {
        match self {
            PeerAction::Idle => PeerAction::Idle,
            PeerAction::Send(text) => PeerAction::Send(text.clone()),
            PeerAction::Ping => PeerAction::Ping,
            PeerAction::Terminate => PeerAction::Terminate,
            PeerAction::TerminateAndSend(text) => PeerAction::TerminateAndSend(text.clone()),
            PeerAction::Close => PeerAction::Close,
            PeerAction::Abort => PeerAction::Abort,
        }
    }
}

/// The text frame by which the peer with this identifier presents it: the
/// JSON object with `type` `Auth` and the identifier as `uuid`.
pub open spec fn identity_text(uuid: Seq<char>) -> Seq<char> {
    "{\"type\":\"Auth\",\"uuid\":"@ + json_string_literal(uuid) + "}"@
}

/// The text frame that asks the hub for a fleet-wide terminate.
pub open spec fn request_text() -> Seq<char> {
    "{\"type\":\"RequestTerminate\"}"@
}

/// Whether a text frame from the hub is the notice of a terminate request.
pub open spec fn is_terminate_notice(text: Seq<char>) -> bool {
    "terminate "@.is_prefix_of(text)
}

/// Whether the hub has been silent for longer than the liveness window: the
/// clock has gone on from `last_seen` to `now` by more than the window, to
/// the tick. A clock that reads less than it did counts as no silence.
pub open spec fn presumed_dead(last_seen: u64, now: u64) -> bool {
    now > last_seen && now - last_seen > LIVENESS_WINDOW_SECS * TICKS_PER_SEC
}

/// A text frame arrived on a live session.
pub open spec fn live_text_step(phase: PeerPhase, text: Seq<char>, uuid: Seq<char>) -> (
    PeerPhase,
    PeerActionView,
) {
    if text == "auth"@ {
        (phase, PeerActionView::Send(identity_text(uuid)))
    } else if text == "close"@ {
        (PeerPhase::Closed, PeerActionView::Close)
    } else if is_terminate_notice(text) {
        (phase, PeerActionView::Terminate)
    } else {
        (phase, PeerActionView::Idle)
    }
}

/// The session's whole transition: the phase after an event that arrives when
/// the clock reads `now`, and the action that it calls for.
pub open spec fn peer_react(phase: PeerPhase, event: PeerEventView, now: u64, uuid: Seq<char>) -> (
    PeerPhase,
    PeerActionView,
) {
    match phase {
        PeerPhase::Closed => (phase, PeerActionView::Idle),
        PeerPhase::Connecting => match event {
            PeerEventView::Connected => (
                PeerPhase::AwaitingAuthAck { last_seen: now },
                PeerActionView::Send(identity_text(uuid)),
            ),
            PeerEventView::Local(WebEvent::Stop) => (PeerPhase::Closed, PeerActionView::Idle),
            PeerEventView::TransportFailed => (PeerPhase::Closed, PeerActionView::Abort),
            _ => (phase, PeerActionView::Idle),
        },
        PeerPhase::AwaitingAuthAck { last_seen } => match event {
            PeerEventView::HandshakeSent => (PeerPhase::Live { last_seen }, PeerActionView::Idle),
            PeerEventView::Local(WebEvent::Stop) => (PeerPhase::Closed, PeerActionView::Close),
            PeerEventView::TransportFailed => (PeerPhase::Closed, PeerActionView::Abort),
            _ => (phase, PeerActionView::Idle),
        },
        PeerPhase::Live { last_seen } => match event {
            PeerEventView::Frame(FrameView::Text(text)) => live_text_step(phase, text, uuid),
            PeerEventView::Frame(FrameView::Pong) => (
                PeerPhase::Live { last_seen: now },
                PeerActionView::Idle,
            ),
            PeerEventView::Frame(FrameView::Close) => (PeerPhase::Closed, PeerActionView::Close),
            PeerEventView::Frame(_) => (phase, PeerActionView::Idle),
            PeerEventView::Heartbeat => if presumed_dead(last_seen, now) {
                (PeerPhase::Closed, PeerActionView::Close)
            } else {
                (phase, PeerActionView::Ping)
            },
            PeerEventView::Local(WebEvent::SendTerminate) => (
                phase,
                PeerActionView::TerminateAndSend(request_text()),
            ),
            PeerEventView::Local(WebEvent::Stop) => (PeerPhase::Closed, PeerActionView::Close),
            PeerEventView::TransportFailed => (PeerPhase::Closed, PeerActionView::Abort),
            _ => (phase, PeerActionView::Idle),
        },
    }
}

/// The value of a [`PeerSession`].
pub struct PeerView {
    pub uuid: Seq<char>,
    pub phase: PeerPhase,
}

/// The peer's state for its one connection.
#[derive(Debug)]
pub struct PeerSession {
    uuid: String,
    phase: PeerPhase,
}

impl View for PeerSession {
    type V = PeerView;

    closed spec fn view(&self) -> PeerView {
        PeerView { uuid: self.uuid@, phase: self.phase }
    }
}

/// Spells the frame that presents an identifier, given the identifier as a
/// JSON string literal.
pub fn auth_envelope(literal: &str) -> (frame: String)
    ensures
        frame@ == "{\"type\":\"Auth\",\"uuid\":"@ + literal@ + "}"@,
{
    let mut frame = "{\"type\":\"Auth\",\"uuid\":".to_owned();
    frame.append(literal);
    frame.append("}");
    frame
}

/// Spells the frame that presents an identifier.
pub fn identity_frame(uuid: &str) -> (frame: String)
    ensures
        frame@ == identity_text(uuid@),
{
    match quote(uuid) {
        Ok(literal) => auth_envelope(literal.as_str()),
        Err(_) => vstd::pervasive::unreached(),
    }
}

/// Whether the hub has been silent for longer than the liveness window.
pub fn is_presumed_dead(last_seen: u64, now: u64) -> (dead: bool)
    ensures
        dead == presumed_dead(last_seen, now),
{
    now.saturating_sub(last_seen) > LIVENESS_WINDOW_SECS * TICKS_PER_SEC
}

impl PeerSession {
    /// The session of the peer with this identifier, before it connects.
    pub fn new(uuid: String) -> (session: PeerSession)
        ensures
            session@ == (PeerView { uuid: uuid@, phase: PeerPhase::Connecting }),
    {
        PeerSession { uuid, phase: PeerPhase::Connecting }
    }

    /// Where the session stands.
    pub fn phase(&self) -> (phase: PeerPhase)
        ensures
            phase == self@.phase,
    {
        self.phase
    }

    /// Whether the identifier was presented on this connection.
    pub fn auth_sent(&self) -> (sent: bool)
        ensures
            sent == (self@.phase is AwaitingAuthAck || self@.phase is Live),
    {
        match self.phase {
            PeerPhase::AwaitingAuthAck { .. } => true,
            PeerPhase::Live { .. } => true,
            _ => false,
        }
    }

    /// Whether the session is over.
    pub fn is_closed(&self) -> (closed: bool)
        ensures
            closed == (self@.phase is Closed),
    {
        match self.phase {
            PeerPhase::Closed => true,
            _ => false,
        }
    }

    /// Handles a text frame on a live session.
    fn on_live_text(&mut self, text: &str) -> (action: PeerAction)
        ensures
            final(self)@.uuid == old(self)@.uuid,
            (final(self)@.phase, action@) == live_text_step(
                old(self)@.phase,
                text@,
                old(self)@.uuid,
            ),
    {
        if same_text(text, "auth") {
            PeerAction::Send(identity_frame(self.uuid.as_str()))
        } else if same_text(text, "close") {
            self.phase = PeerPhase::Closed;
            PeerAction::Close
        } else if begins_with(text, "terminate ") {
            PeerAction::Terminate
        } else {
            PeerAction::Idle
        }
    }

    /// Handles any event, given the clock's reading at its arrival.
    pub fn step(&mut self, event: PeerEvent, now: u64) -> (action: PeerAction)
        ensures
            final(self)@.uuid == old(self)@.uuid,
            (final(self)@.phase, action@) == peer_react(
                old(self)@.phase,
                event@,
                now,
                old(self)@.uuid,
            ),
    {
        match self.phase {
            PeerPhase::Closed => PeerAction::Idle,
            PeerPhase::Connecting => match event {
                PeerEvent::Connected => {
                    self.phase = PeerPhase::AwaitingAuthAck { last_seen: now };
                    PeerAction::Send(identity_frame(self.uuid.as_str()))
                },
                PeerEvent::Local(WebEvent::Stop) => {
                    self.phase = PeerPhase::Closed;
                    PeerAction::Idle
                },
                PeerEvent::TransportFailed => {
                    self.phase = PeerPhase::Closed;
                    PeerAction::Abort
                },
                _ => PeerAction::Idle,
            },
            PeerPhase::AwaitingAuthAck { last_seen } => match event {
                PeerEvent::HandshakeSent => {
                    self.phase = PeerPhase::Live { last_seen };
                    PeerAction::Idle
                },
                PeerEvent::Local(WebEvent::Stop) => {
                    self.phase = PeerPhase::Closed;
                    PeerAction::Close
                },
                PeerEvent::TransportFailed => {
                    self.phase = PeerPhase::Closed;
                    PeerAction::Abort
                },
                _ => PeerAction::Idle,
            },
            PeerPhase::Live { last_seen } => match event {
                PeerEvent::Frame(Frame::Text(text)) => self.on_live_text(text.as_str()),
                PeerEvent::Frame(Frame::Pong) => {
                    self.phase = PeerPhase::Live { last_seen: now };
                    PeerAction::Idle
                },
                PeerEvent::Frame(Frame::Close) => {
                    self.phase = PeerPhase::Closed;
                    PeerAction::Close
                },
                PeerEvent::Frame(_) => PeerAction::Idle,
                PeerEvent::Heartbeat => {
                    if is_presumed_dead(last_seen, now) {
                        self.phase = PeerPhase::Closed;
                        PeerAction::Close
                    } else {
                        PeerAction::Ping
                    }
                },
                PeerEvent::Local(WebEvent::SendTerminate) => PeerAction::TerminateAndSend(
                    "{\"type\":\"RequestTerminate\"}".to_owned(),
                ),
                PeerEvent::Local(WebEvent::Stop) => {
                    self.phase = PeerPhase::Closed;
                    PeerAction::Close
                },
                PeerEvent::TransportFailed => {
                    self.phase = PeerPhase::Closed;
                    PeerAction::Abort
                },
                _ => PeerAction::Idle,
            },
        }
    }
}

} // verus!
