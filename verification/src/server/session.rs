//! The hub's side of one connection.
//!
//! A session starts unauthenticated, becomes authenticated when its peer
//! presents an identifier that the access list holds, and ends closed. The
//! caller owns the socket, the challenge timer and the subscription to the
//! hub's broadcasts; it hands each event to [`ConnectionSession::step`] and
//! carries out the action that comes back.

use crate::frame::{Frame, FrameView};
use crate::server::acl::AccessList;
use crate::server::types::{
    decode_text, BroadcastView, WebBroadcastEvent, WebData, WebDataView,
};
use crate::text::{same_text, text_of_bytes};
use vstd::prelude::*;
use vstd::string::StringExecFns;
use vstd::utf8::{decode_utf8, valid_utf8};

verus! {

/// Seconds between two challenges to a peer that has not authenticated.
pub const CHALLENGE_INTERVAL_SECS: u64 = 30;

/// Seconds by which the next challenge is put off once a peer has
/// authenticated: longer than any connection lasts.
pub const SUPPRESSED_CHALLENGE_SECS: u64 = 114514;

/// Events that the hub's bus keeps for a session that falls behind; a session
/// further behind misses the oldest.
pub const BROADCAST_BACKLOG: usize = 32;

/// Milliseconds that the listener lingers after the hub has announced that it
/// quits, so that the sessions can say farewell.
pub const SHUTDOWN_SETTLE_MILLIS: u64 = 200;

/// The text frame that asks a peer to present its identifier.
pub open spec fn challenge() -> Seq<char> {
    "auth"@
}

/// The text frame by which either side announces that it disconnects.
pub open spec fn farewell() -> Seq<char> {
    "close"@
}

/// The text frame that tells a peer who asked for a terminate.
pub open spec fn terminate_notice(invoker: Seq<char>) -> Seq<char> {
    "terminate "@ + invoker
}

/// Where a session stands.
pub enum SessionView {
    Unauthenticated,
    Authenticated(Seq<char>),
    Closed,
}

/// Something that happens to a session.
#[derive(Debug, PartialEq, Eq)]
pub enum SessionEvent {
    /// The challenge timer fired.
    Tick,
    /// The peer sent a frame.
    Frame(Frame),
    /// The peer's stream ended.
    PeerGone,
    /// Reading from or writing to the socket failed.
    TransportFailed,
    /// The hub fanned an event out.
    Broadcast(WebBroadcastEvent),
}

/// The value of a [`SessionEvent`].
pub enum SessionEventView {
    Tick,
    Frame(FrameView),
    PeerGone,
    TransportFailed,
    Broadcast(BroadcastView),
}

impl View for SessionEvent {
    type V = SessionEventView;

    open spec fn view(&self) -> SessionEventView {
        match self {
            SessionEvent::Tick => SessionEventView::Tick,
            SessionEvent::Frame(frame) => SessionEventView::Frame(frame@),
            SessionEvent::PeerGone => SessionEventView::PeerGone,
            SessionEvent::TransportFailed => SessionEventView::TransportFailed,
            SessionEvent::Broadcast(event) => SessionEventView::Broadcast(event@),
        }
    }
}

impl Clone for SessionEvent {
    fn clone(&self) -> (copy: SessionEvent)
        ensures
            copy@ == self@,
    {
        match self {
            SessionEvent::Tick => SessionEvent::Tick,
            SessionEvent::Frame(frame) => SessionEvent::Frame(frame.clone()),
            SessionEvent::PeerGone => SessionEvent::PeerGone,
            SessionEvent::TransportFailed => SessionEvent::TransportFailed,
            SessionEvent::Broadcast(event) => SessionEvent::Broadcast(event.clone()),
        }
    }
}

/// What the caller is to do after an event.
#[derive(Debug, PartialEq, Eq)]
pub enum SessionAction {
    /// Nothing.
    Idle,
    /// Send this text frame to the peer; a failure to send is a
    /// [`SessionEvent::TransportFailed`].
    Send(String),
    /// Publish this event to every session of the hub.
    Publish(WebBroadcastEvent),
    /// Put the next challenge off by [`SUPPRESSED_CHALLENGE_SECS`].
    SuppressChallenges,
    /// Note in the log that this identifier was refused; the peer is told
    /// nothing.
    Reject(String),
    /// Send this text frame, ignoring a failure, and drop the connection.
    Farewell(String),
    /// Drop the connection without another frame.
    Hangup,
    /// Drop the connection and report the failure.
    Abort,
}

/// The value of a [`SessionAction`].
pub enum ActionView {
    Idle,
    Send(Seq<char>),
    Publish(BroadcastView),
    SuppressChallenges,
    Reject(Seq<char>),
    Farewell(Seq<char>),
    Hangup,
    Abort,
}

impl View for SessionAction {
    type V = ActionView;

    open spec fn view(&self) -> ActionView {
        match self {
            SessionAction::Idle => ActionView::Idle,
            SessionAction::Send(text) => ActionView::Send(text@),
            SessionAction::Publish(event) => ActionView::Publish(event@),
            SessionAction::SuppressChallenges => ActionView::SuppressChallenges,
            SessionAction::Reject(id) => ActionView::Reject(id@),
            SessionAction::Farewell(text) => ActionView::Farewell(text@),
            SessionAction::Hangup => ActionView::Hangup,
            SessionAction::Abort => ActionView::Abort,
        }
    }
}

impl Clone for SessionAction {
    fn clone(&self) -> (copy: SessionAction)
        ensures
            copy@ == self@,
    {
        match self {
            SessionAction::Idle => SessionAction::Idle,
            SessionAction::Send(text) => SessionAction::Send(text.clone()),
            SessionAction::Publish(event) => SessionAction::Publish(event.clone()),
            SessionAction::SuppressChallenges => SessionAction::SuppressChallenges,
            SessionAction::Reject(id) => SessionAction::Reject(id.clone()),
            SessionAction::Farewell(text) => SessionAction::Farewell(text.clone()),
            SessionAction::Hangup => SessionAction::Hangup,
            SessionAction::Abort => SessionAction::Abort,
        }
    }
}

/// The challenge timer fired: a peer that has not authenticated is asked to.
pub open spec fn tick_step(s: SessionView) -> (SessionView, ActionView) {
    match s {
        SessionView::Unauthenticated => (s, ActionView::Send(challenge())),
        _ => (s, ActionView::Idle),
    }
}

/// The peer sent a message. An identifier on the access list authenticates
/// the session under it; any other is refused in silence. A terminate request
/// is published under the session's identifier, if it has one.
pub open spec fn message_step(s: SessionView, data: WebDataView, acl: Set<Seq<char>>) -> (
    SessionView,
    ActionView,
) {
    match s {
        SessionView::Closed => (s, ActionView::Idle),
        _ => match data {
            WebDataView::Auth { uuid } => if acl.contains(uuid) {
                (SessionView::Authenticated(uuid), ActionView::SuppressChallenges)
            } else {
                (s, ActionView::Reject(uuid))
            },
            WebDataView::RequestTerminate => match s {
                SessionView::Authenticated(id) => (
                    s,
                    ActionView::Publish(BroadcastView::RequestTerminate(id)),
                ),
                _ => (s, ActionView::Idle),
            },
        },
    }
}

/// The peer sent a text: the farewell closes the session, a message is
/// handled, anything else is passed over.
pub open spec fn text_step(s: SessionView, text: Seq<char>, acl: Set<Seq<char>>) -> (
    SessionView,
    ActionView,
) {
    if s is Closed {
        (s, ActionView::Idle)
    } else if text == farewell() {
        (SessionView::Closed, ActionView::Hangup)
    } else {
        match decode_text(text) {
            Ok(data) => message_step(s, data, acl),
            Err(_) => (s, ActionView::Idle),
        }
    }
}

/// The peer sent a frame. Binary payloads that are UTF-8 are read as text.
pub open spec fn frame_step(s: SessionView, frame: FrameView, acl: Set<Seq<char>>) -> (
    SessionView,
    ActionView,
) {
    match frame {
        FrameView::Text(text) => text_step(s, text, acl),
        FrameView::Binary(bytes) => if valid_utf8(bytes) {
            text_step(s, decode_utf8(bytes), acl)
        } else {
            (s, ActionView::Idle)
        },
        FrameView::Ping => (s, ActionView::Idle),
        FrameView::Pong => (s, ActionView::Idle),
        FrameView::Close => hangup_step(s),
    }
}

/// The connection ended from the peer's side.
pub open spec fn hangup_step(s: SessionView) -> (SessionView, ActionView) {
    if s is Closed {
        (s, ActionView::Idle)
    } else {
        (SessionView::Closed, ActionView::Hangup)
    }
}

/// The socket failed.
pub open spec fn failure_step(s: SessionView) -> (SessionView, ActionView) {
    if s is Closed {
        (s, ActionView::Idle)
    } else {
        (SessionView::Closed, ActionView::Abort)
    }
}

/// The hub fanned an event out. A terminate request goes to the peer of every
/// authenticated session but the one that asked; shutdown closes the session
/// with a farewell.
pub open spec fn broadcast_step(s: SessionView, event: BroadcastView) -> (SessionView, ActionView) {
    match s {
        SessionView::Closed => (s, ActionView::Idle),
        _ => match event {
            BroadcastView::ServerQuit => (SessionView::Closed, ActionView::Farewell(farewell())),
            BroadcastView::RequestTerminate(invoker) => match s {
                SessionView::Authenticated(id) => if id == invoker {
                    (s, ActionView::Idle)
                } else {
                    (s, ActionView::Send(terminate_notice(invoker)))
                },
                _ => (s, ActionView::Idle),
            },
        },
    }
}

/// The session's whole transition: the state after an event and the action
/// that it calls for, given the access list as it stands at that moment.
pub open spec fn react(s: SessionView, event: SessionEventView, acl: Set<Seq<char>>) -> (
    SessionView,
    ActionView,
) {
    match event {
        SessionEventView::Tick => tick_step(s),
        SessionEventView::Frame(frame) => frame_step(s, frame, acl),
        SessionEventView::PeerGone => hangup_step(s),
        SessionEventView::TransportFailed => failure_step(s),
        SessionEventView::Broadcast(event) => broadcast_step(s, event),
    }
}

#[derive(Debug)]
enum Phase {
    Unauthenticated,
    Authenticated(String),
    Closed,
}

/// The hub's state for one connection.
#[derive(Debug)]
pub struct ConnectionSession {
    phase: Phase,
}

impl View for ConnectionSession {
    type V = SessionView;

    closed spec fn view(&self) -> SessionView {
        match self.phase {
            Phase::Unauthenticated => SessionView::Unauthenticated,
            Phase::Authenticated(id) => SessionView::Authenticated(id@),
            Phase::Closed => SessionView::Closed,
        }
    }
}

impl ConnectionSession {
    /// The session of a connection that was just accepted.
    pub fn new() -> (session: ConnectionSession)
        ensures
            session@ == SessionView::Unauthenticated,
    {
        ConnectionSession { phase: Phase::Unauthenticated }
    }

    /// Whether the session has ended.
    pub fn is_closed(&self) -> (r: bool)
        ensures
            r == (self@ is Closed),
    {
        match self.phase {
            Phase::Closed => true,
            _ => false,
        }
    }

    /// The identifier under which the peer authenticated, if it has.
    pub fn identifier(&self) -> (r: Option<&str>)
        ensures
            match r {
                Some(id) => self@ == SessionView::Authenticated(id@),
                None => !(self@ is Authenticated),
            },
    {
        match &self.phase {
            Phase::Authenticated(id) => Some(id.as_str()),
            _ => None,
        }
    }

    /// Handles the challenge timer.
    pub fn on_tick(&mut self) -> (action: SessionAction)
        ensures
            (final(self)@, action@) == tick_step(old(self)@),
    {
        match self.phase {
            Phase::Unauthenticated => SessionAction::Send("auth".to_owned()),
            _ => SessionAction::Idle,
        }
    }

    /// Handles a message from the peer.
    pub fn on_message(&mut self, data: WebData, acl: &AccessList) -> (action: SessionAction)
        ensures
            (final(self)@, action@) == message_step(old(self)@, data@, acl@),
    {
        if self.is_closed() {
            return SessionAction::Idle;
        }
        match data {
            WebData::Auth { uuid } => {
                if acl.contains(uuid.as_str()) {
                    self.phase = Phase::Authenticated(uuid);
                    SessionAction::SuppressChallenges
                } else {
                    SessionAction::Reject(uuid)
                }
            },
            WebData::RequestTerminate => match &self.phase {
                Phase::Authenticated(id) => SessionAction::Publish(
                    WebBroadcastEvent::RequestTerminate(id.clone()),
                ),
                _ => SessionAction::Idle,
            },
        }
    }

    /// Handles a text from the peer.
    pub fn on_text(&mut self, text: &str, acl: &AccessList) -> (action: SessionAction)
        ensures
            (final(self)@, action@) == text_step(old(self)@, text@, acl@),
    {
        if self.is_closed() {
            return SessionAction::Idle;
        }
        if same_text(text, "close") {
            self.phase = Phase::Closed;
            return SessionAction::Hangup;
        }
        match WebData::try_from(text) {
            Ok(data) => self.on_message(data, acl),
            Err(_) => SessionAction::Idle,
        }
    }

    /// Handles a frame from the peer.
    pub fn on_frame(&mut self, frame: Frame, acl: &AccessList) -> (action: SessionAction)
        ensures
            (final(self)@, action@) == frame_step(old(self)@, frame@, acl@),
    {
        match frame {
            Frame::Text(text) => self.on_text(text.as_str(), acl),
            Frame::Binary(bytes) => match text_of_bytes(bytes) {
                Some(text) => self.on_text(text.as_str(), acl),
                None => SessionAction::Idle,
            },
            Frame::Ping => SessionAction::Idle,
            Frame::Pong => SessionAction::Idle,
            Frame::Close => self.on_hangup(),
        }
    }

    /// Handles the end of the connection from the peer's side.
    pub fn on_hangup(&mut self) -> (action: SessionAction)
        ensures
            (final(self)@, action@) == hangup_step(old(self)@),
    {
        if self.is_closed() {
            return SessionAction::Idle;
        }
        self.phase = Phase::Closed;
        SessionAction::Hangup
    }

    /// Handles a failure of the socket.
    pub fn on_failure(&mut self) -> (action: SessionAction)
        ensures
            (final(self)@, action@) == failure_step(old(self)@),
    {
        if self.is_closed() {
            return SessionAction::Idle;
        }
        self.phase = Phase::Closed;
        SessionAction::Abort
    }

    /// Handles an event that the hub fanned out.
    pub fn on_broadcast(&mut self, event: WebBroadcastEvent) -> (action: SessionAction)
        ensures
            (final(self)@, action@) == broadcast_step(old(self)@, event@),
    {
        if self.is_closed() {
            return SessionAction::Idle;
        }
        match event {
            WebBroadcastEvent::ServerQuit => {
                self.phase = Phase::Closed;
                SessionAction::Farewell("close".to_owned())
            },
            WebBroadcastEvent::RequestTerminate(invoker) => match &self.phase {
                Phase::Authenticated(id) => {
                    if same_text(id.as_str(), invoker.as_str()) {
                        SessionAction::Idle
                    } else {
                        let mut notice = "terminate ".to_owned();
                        notice.append(invoker.as_str());
                        SessionAction::Send(notice)
                    }
                },
                _ => SessionAction::Idle,
            },
        }
    }

    /// Handles any event: the one entry point that a connection's loop needs.
    pub fn step(&mut self, event: SessionEvent, acl: &AccessList) -> (action: SessionAction)
        ensures
            (final(self)@, action@) == react(old(self)@, event@, acl@),
    {
        match event {
            SessionEvent::Tick => self.on_tick(),
            SessionEvent::Frame(frame) => self.on_frame(frame, acl),
            SessionEvent::PeerGone => self.on_hangup(),
            SessionEvent::TransportFailed => self.on_failure(),
            SessionEvent::Broadcast(event) => self.on_broadcast(event),
        }
    }
}

} // verus!
