//! One session per connected client.
//!
//! A session is a state machine with no transport of its own. Whoever owns
//! the connection feeds it what happens (the hub's answer to the join, a
//! frame, a tick of the clock, the end of the connection) together with the
//! current time, and carries out the action it answers with. Time is a
//! count of milliseconds on a clock that does not run backwards; the session
//! only ever compares two readings of it.
//!
//! A frame that cannot be decoded, and a presentation whose questions cannot
//! be read, are reported to the client that asked and change nothing else:
//! the connection stays open.

use crate::navigation::NavigateEventRequest;
use crate::protocol::{decoded_request, encoded_response, ProtocolError};
use crate::web_socket_server::{Message, RemoveSession, SendMessage};
use vstd::prelude::*;

verus! {

/// The interval between two pings, in milliseconds.
pub const HEARTBEAT_INTERVAL: u64 = 5_000;

/// The number of intervals a client may stay silent before its session is
/// closed.
pub const MISSED_HEARTBEATS: u64 = 2;

/// Where a session is in its life.
#[derive(Clone, Copy, Debug, PartialEq, Eq, Structural)]
pub enum SessionState {
    /// Connected, not yet known to the hub.
    Connecting,
    /// Registered with the hub and serving frames.
    Active,
    /// On its way out: the transport is being closed.
    Closing,
    /// Gone from the hub, transport released.
    Closed,
}

/// Whether a session in state `from` may be in state `to` after an event:
/// it stays where it is or moves on towards closed, never back.
pub open spec fn reachable(from: SessionState, to: SessionState) -> bool {
    match from {
        SessionState::Connecting => to != SessionState::Closed,
        SessionState::Active => to == SessionState::Active || to == SessionState::Closing,
        SessionState::Closing => to == SessionState::Closing,
        SessionState::Closed => to == SessionState::Closed,
    }
}

/// When a silent client is given up: after `missed_limit` intervals of
/// `interval` milliseconds without a ping or pong from it.
#[derive(Clone, Copy, Debug, PartialEq, Eq, Structural)]
pub struct Heartbeat {
    pub interval: u64,
    pub missed_limit: u64,
}

impl Heartbeat {
    /// The longest silence that is tolerated, in milliseconds.
    pub open spec fn timeout(self) -> int {
        self.interval * self.missed_limit
    }

    /// Whether a client last heard of at `last` is overdue at `now`.
    pub open spec fn expired(self, last: u64, now: u64) -> bool {
        now - last > self.timeout()
    }

    /// The policy of a session that was given none: a ping every
    /// [`HEARTBEAT_INTERVAL`], given up after [`MISSED_HEARTBEATS`] of them.
    pub fn standard() -> (policy: Self)
        ensures
            policy == (Heartbeat { interval: HEARTBEAT_INTERVAL, missed_limit: MISSED_HEARTBEATS }),
    {
        Heartbeat { interval: HEARTBEAT_INTERVAL, missed_limit: MISSED_HEARTBEATS }
    }

    /// Decides whether a client last heard of at `last` is overdue at `now`.
    pub fn is_expired(&self, last: u64, now: u64) -> (overdue: bool)
        ensures
            overdue == self.expired(last, now),
    {
        if now <= last {
            assert(self.interval * self.missed_limit >= 0) by (nonlinear_arith);
            return false;
        }
        match self.interval.checked_mul(self.missed_limit) {
            Some(timeout) => now - last > timeout,
            None => false,
        }
    }
}

/// Why the questions of a presentation could not be had.
#[derive(Clone, Copy, Debug, PartialEq, Eq, Structural)]
pub enum LookupError {
    /// There is no such presentation.
    NotFound,
    /// The store did not answer.
    Unavailable,
}

impl LookupError {
    /// The error the client is told.
    pub open spec fn reported(self) -> ProtocolError {
        match self {
            LookupError::NotFound => ProtocolError::PresentationNotFound,
            LookupError::Unavailable => ProtocolError::StorageUnavailable,
        }
    }
}

/// What arrived on the transport.
#[derive(Clone, Debug)]
pub enum Frame {
    /// A ping, with its payload.
    Ping(Vec<u8>),
    /// A pong.
    Pong,
    /// A text frame: a navigation request.
    Text(String),
    /// A binary frame. The protocol has none.
    Binary,
    /// The client closed the connection.
    Close,
    /// A frame of any other kind.
    Other,
    /// The transport reported an error.
    Failed,
}

/// A frame as contracts see it.
pub enum FrameView {
    Ping(Seq<u8>),
    Pong,
    Text(Seq<char>),
    Binary,
    Close,
    Other,
    Failed,
}

impl View for Frame {
    type V = FrameView;

    open spec fn view(&self) -> FrameView {
        match self {
            Frame::Ping(payload) => FrameView::Ping(payload@),
            Frame::Pong => FrameView::Pong,
            Frame::Text(text) => FrameView::Text(text@),
            Frame::Binary => FrameView::Binary,
            Frame::Close => FrameView::Close,
            Frame::Other => FrameView::Other,
            Frame::Failed => FrameView::Failed,
        }
    }
}

/// What the owner of the connection is to do next.
#[derive(Clone, Debug)]
pub enum SessionAction {
    /// Nothing.
    Nothing,
    /// Send a ping to the client.
    Ping,
    /// Answer the client's ping with a pong of this payload.
    Pong(Vec<u8>),
    /// Write this text to the client.
    Write(String),
    /// Read the questions of the request's presentation and hand them to
    /// [`WebSocketSession::navigated`] together with the request.
    Lookup(NavigateEventRequest),
    /// Tell the client, and nobody else, that its request failed.
    Reject(ProtocolError),
    /// Pass this message to the hub, to be sent to every session.
    Broadcast(SendMessage),
    /// Pass this request to the hub: the session was registered after it
    /// had ended.
    Leave(RemoveSession),
    /// Drop the frame; it is worth a line in the log.
    Discard,
    /// Close the transport. [`WebSocketSession::stopped`] follows.
    Stop,
}

/// An action as contracts see it.
pub enum ActionView {
    Nothing,
    Ping,
    Pong(Seq<u8>),
    Write(Seq<char>),
    Lookup(NavigateEventRequest),
    Reject(ProtocolError),
    Broadcast { name: Seq<char>, id: usize, content: Seq<char> },
    Leave(usize),
    Discard,
    Stop,
}

impl View for SessionAction {
    type V = ActionView;

    open spec fn view(&self) -> ActionView {
        match self {
            SessionAction::Nothing => ActionView::Nothing,
            SessionAction::Ping => ActionView::Ping,
            SessionAction::Pong(payload) => ActionView::Pong(payload@),
            SessionAction::Write(text) => ActionView::Write(text@),
            SessionAction::Lookup(request) => ActionView::Lookup(*request),
            SessionAction::Reject(error) => ActionView::Reject(*error),
            SessionAction::Broadcast(message) => ActionView::Broadcast {
                name: message.name@,
                id: message.id,
                content: message.content@,
            },
            SessionAction::Leave(request) => ActionView::Leave(request.0),
            SessionAction::Discard => ActionView::Discard,
            SessionAction::Stop => ActionView::Stop,
        }
    }
}

/// The server's side of one client connection.
#[derive(Debug)]
pub struct WebSocketSession {
    id: Option<usize>,
    name: String,
    heart_beat: u64,
    scope: Option<i32>,
    heartbeat: Heartbeat,
    state: SessionState,
}

/// A session as contracts see it.
pub struct SessionView {
    /// The identifier the hub gave the session, once it has joined.
    pub id: Option<usize>,
    /// The name the session signs its messages with.
    pub name: Seq<char>,
    /// When the client was last heard of.
    pub heart_beat: u64,
    /// The presentation the connection is bound to, if any.
    pub scope: Option<i32>,
    /// When the client is given up.
    pub heartbeat: Heartbeat,
    pub state: SessionState,
}

impl View for WebSocketSession {
    type V = SessionView;

    closed spec fn view(&self) -> SessionView {
        SessionView {
            id: self.id,
            name: self.name@,
            heart_beat: self.heart_beat,
            scope: self.scope,
            heartbeat: self.heartbeat,
            state: self.state,
        }
    }
}

impl SessionView {
    /// What holds of a session throughout its life: it has an identifier
    /// while it is active, and none before it has joined or after it has
    /// ended.
    pub open spec fn well_formed(self) -> bool {
        match self.state {
            SessionState::Connecting => self.id is None,
            SessionState::Active => self.id is Some,
            SessionState::Closing => true,
            SessionState::Closed => self.id is None,
        }
    }

    /// The session after it has ended.
    pub open spec fn ended(self) -> SessionView {
        SessionView { id: None, state: SessionState::Closed, ..self }
    }

    /// The session after a sign of life at `now`.
    pub open spec fn heard_at(self, now: u64) -> SessionView {
        SessionView { heart_beat: now, ..self }
    }

    /// The session moved to `state`.
    pub open spec fn moved_to(self, state: SessionState) -> SessionView {
        SessionView { state, ..self }
    }

    /// The identifier the session signs with: its own once it has joined,
    /// `0` before.
    pub open spec fn signature(self) -> usize {
        match self.id {
            Some(id) => id,
            None => 0,
        }
    }

    /// The session and the action after the hub has answered the join
    /// request. A connecting session becomes active with the identifier it
    /// was given, and closes where it was given none. A session that began
    /// to close in the meantime keeps the identifier, to leave with it; one
    /// that has ended already hands it straight back. An active session has
    /// its identifier and ignores the answer.
    pub open spec fn after_join(self, answer: Option<usize>) -> (SessionView, ActionView) {
        match (self.state, answer) {
            (SessionState::Connecting, Some(id)) => (
                SessionView { id: Some(id), state: SessionState::Active, ..self },
                ActionView::Nothing,
            ),
            (SessionState::Connecting, None) => (
                self.moved_to(SessionState::Closing),
                ActionView::Stop,
            ),
            (SessionState::Closing, Some(id)) => if self.id is None {
                (SessionView { id: Some(id), ..self }, ActionView::Nothing)
            } else {
                (self, ActionView::Nothing)
            },
            (SessionState::Closed, Some(id)) => (self, ActionView::Leave(id)),
            _ => (self, ActionView::Nothing),
        }
    }

    /// The session and the action after `frame` has arrived at `now`. Only
    /// an active session serves frames.
    pub open spec fn after_frame(self, frame: FrameView, now: u64) -> (SessionView, ActionView) {
        if self.state != SessionState::Active {
            (self, ActionView::Nothing)
        } else {
            match frame {
                FrameView::Ping(payload) => (self.heard_at(now), ActionView::Pong(payload)),
                FrameView::Pong => (self.heard_at(now), ActionView::Nothing),
                FrameView::Text(text) => match decoded_request(text, self.scope) {
                    Ok(request) => (self, ActionView::Lookup(request)),
                    Err(error) => (self, ActionView::Reject(error)),
                },
                FrameView::Binary => (self, ActionView::Discard),
                FrameView::Close | FrameView::Other | FrameView::Failed => (
                    self.moved_to(SessionState::Closing),
                    ActionView::Stop,
                ),
            }
        }
    }

    /// The action after the questions of `request`'s presentation have been
    /// looked up: `found` is their number, or why there is none.
    pub open spec fn after_lookup(
        self,
        request: NavigateEventRequest,
        found: Result<int, LookupError>,
    ) -> ActionView {
        if self.state != SessionState::Active {
            ActionView::Nothing
        } else {
            match found {
                Ok(length) => ActionView::Broadcast {
                    name: self.name,
                    id: self.signature(),
                    content: encoded_response(request.response(length)),
                },
                Err(error) => ActionView::Reject(error.reported()),
            }
        }
    }

    /// The session and the action after a tick of the clock at `now`: an
    /// active session whose client is overdue closes, any other active
    /// session pings its client.
    pub open spec fn after_tick(self, now: u64) -> (SessionView, ActionView) {
        if self.state != SessionState::Active {
            (self, ActionView::Nothing)
        } else if self.heartbeat.expired(self.heart_beat, now) {
            (self.moved_to(SessionState::Closing), ActionView::Stop)
        } else {
            (self, ActionView::Ping)
        }
    }

    /// The session and the action after the owner has asked it to shut
    /// down.
    pub open spec fn after_shutdown(self) -> (SessionView, ActionView) {
        if self.state == SessionState::Connecting || self.state == SessionState::Active {
            (self.moved_to(SessionState::Closing), ActionView::Stop)
        } else {
            (self, ActionView::Nothing)
        }
    }
}

impl WebSocketSession {
    /// A session for a connection that was accepted at `now`, bound to the
    /// presentation `scope` if there is one.
    pub fn new(now: u64, scope: Option<i32>) -> (session: Self)
        ensures
            session@.well_formed(),
            session@ == (SessionView {
                id: None,
                name: "Main"@,
                heart_beat: now,
                scope,
                heartbeat: Heartbeat {
                    interval: HEARTBEAT_INTERVAL,
                    missed_limit: MISSED_HEARTBEATS,
                },
                state: SessionState::Connecting,
            }),
    {
        WebSocketSession {
            id: None,
            name: "Main".to_owned(),
            heart_beat: now,
            scope,
            heartbeat: Heartbeat::standard(),
            state: SessionState::Connecting,
        }
    }

    /// The same session with another heartbeat policy.
    pub fn with_heartbeat(self, heartbeat: Heartbeat) -> (session: Self)
        ensures
            session@ == (SessionView { heartbeat, ..self@ }),
    {
        WebSocketSession { heartbeat, ..self }
    }

    /// The identifier the hub gave the session, once it has joined.
    pub fn id(&self) -> (id: Option<usize>)
        ensures
            id == self@.id,
    {
        self.id
    }

    /// Where the session is in its life.
    pub fn state(&self) -> (state: SessionState)
        ensures
            state == self@.state,
    {
        self.state
    }

    /// When the client was last heard of.
    pub fn heart_beat(&self) -> (at: u64)
        ensures
            at == self@.heart_beat,
    {
        self.heart_beat
    }

    /// Takes the hub's answer to the join request: the identifier it gave,
    /// or `None` where the request did not get through.
    pub fn started(&mut self, answer: Option<usize>) -> (action: SessionAction)
        ensures
            (final(self)@, action@) == old(self)@.after_join(answer),
    {
        match (self.state, answer) {
            (SessionState::Connecting, Some(id)) => {
                self.id = Some(id);
                self.state = SessionState::Active;
                SessionAction::Nothing
            },
            (SessionState::Connecting, None) => {
                self.state = SessionState::Closing;
                SessionAction::Stop
            },
            (SessionState::Closing, Some(id)) => {
                if self.id.is_none() {
                    self.id = Some(id);
                }
                SessionAction::Nothing
            },
            (SessionState::Closed, Some(id)) => SessionAction::Leave(RemoveSession(id)),
            _ => SessionAction::Nothing,
        }
    }

    /// Serves one frame that arrived at `now`.
    pub fn handle(&mut self, frame: Frame, now: u64) -> (action: SessionAction)
        ensures
            (final(self)@, action@) == old(self)@.after_frame(frame@, now),
    {
        match self.state {
            SessionState::Active => {},
            _ => {
                return SessionAction::Nothing;
            },
        }
        match frame {
            Frame::Ping(payload) => {
                self.heart_beat = now;
                SessionAction::Pong(payload)
            },
            Frame::Pong => {
                self.heart_beat = now;
                SessionAction::Nothing
            },
            Frame::Text(text) => match NavigateEventRequest::parse_request(
                text.as_str(),
                self.scope,
            ) {
                Ok(request) => SessionAction::Lookup(request),
                Err(error) => SessionAction::Reject(error),
            },
            Frame::Binary => SessionAction::Discard,
            Frame::Close | Frame::Other | Frame::Failed => {
                self.state = SessionState::Closing;
                SessionAction::Stop
            },
        }
    }

    /// Finishes a navigation request once the questions of its presentation
    /// have been looked up: on success the new index goes out to every
    /// session; on failure the client that asked is told.
    pub fn navigated<Q>(
        &self,
        request: NavigateEventRequest,
        lookup: Result<&[Q], LookupError>,
    ) -> (action: SessionAction)
        ensures
            action@ == self@.after_lookup(
                request,
                match lookup {
                    Ok(questions) => Ok(questions@.len() as int),
                    Err(error) => Err(error),
                },
            ),
    {
        match self.state {
            SessionState::Active => {},
            _ => {
                return SessionAction::Nothing;
            },
        }
        match lookup {
            Ok(questions) => {
                let response = request.get_response(questions);
                SessionAction::Broadcast(self.send_msg(response.to_json()))
            },
            Err(LookupError::NotFound) => SessionAction::Reject(
                ProtocolError::PresentationNotFound,
            ),
            Err(LookupError::Unavailable) => SessionAction::Reject(
                ProtocolError::StorageUnavailable,
            ),
        }
    }

    /// Wraps `msg` as a message from this session to every session.
    pub fn send_msg(&self, msg: String) -> (message: SendMessage)
        ensures
            message.name@ == self@.name,
            message.id == self@.signature(),
            message.content@ == msg@,
    {
        SendMessage {
            name: self.name.clone(),
            id: match self.id {
                Some(id) => id,
                None => 0,
            },
            content: msg,
        }
    }

    /// Takes a message the hub sent to this session: an active session
    /// writes its text to the client, any other lets it drop.
    pub fn forward(&self, msg: Message) -> (action: SessionAction)
        ensures
            action@ == (if self@.state == SessionState::Active {
                ActionView::Write(msg.0@)
            } else {
                ActionView::Nothing
            }),
    {
        match self.state {
            SessionState::Active => SessionAction::Write(msg.0),
            _ => SessionAction::Nothing,
        }
    }

    /// Serves a tick of the clock at `now`.
    pub fn tick(&mut self, now: u64) -> (action: SessionAction)
        ensures
            (final(self)@, action@) == old(self)@.after_tick(now),
    {
        match self.state {
            SessionState::Active => {
                if self.heartbeat.is_expired(self.heart_beat, now) {
                    self.state = SessionState::Closing;
                    SessionAction::Stop
                } else {
                    SessionAction::Ping
                }
            },
            _ => SessionAction::Nothing,
        }
    }

    /// Asks the session to shut down.
    pub fn shutdown(&mut self) -> (action: SessionAction)
        ensures
            (final(self)@, action@) == old(self)@.after_shutdown(),
    {
        match self.state {
            SessionState::Connecting | SessionState::Active => {
                self.state = SessionState::Closing;
                SessionAction::Stop
            },
            _ => SessionAction::Nothing,
        }
    }

    /// Ends the session, whatever state it is in and whatever became of the
    /// transport. A session that had joined answers with the leave request
    /// to pass to the hub; it does so once.
    pub fn stopped(&mut self) -> (leave: Option<RemoveSession>)
        ensures
            final(self)@ == old(self)@.ended(),
            match old(self)@.id {
                Some(id) => leave matches Some(request) && request.0 == id,
                None => leave is None,
            },
    {
        self.state = SessionState::Closed;
        match self.id {
            Some(id) => {
                self.id = None;
                Some(RemoveSession(id))
            },
            None => None,
        }
    }
}

/// No event breaks a session: whatever happens to a well-formed session
/// leaves a well-formed session.
pub proof fn lemma_session_stays_well_formed(
    session: SessionView,
    answer: Option<usize>,
    frame: FrameView,
    now: u64,
)
    requires
        session.well_formed(),
    ensures
        session.after_join(answer).0.well_formed(),
        session.after_frame(frame, now).0.well_formed(),
        session.after_tick(now).0.well_formed(),
        session.after_shutdown().0.well_formed(),
        session.ended().well_formed(),
{
}

/// No registration is lost: an identifier the hub gives to a session that
/// has none is either kept by the session, which leaves with it when it
/// ends, or handed back to the hub at once.
pub proof fn lemma_registration_is_not_lost(session: SessionView, id: usize)
    requires
        session.well_formed(),
        session.id is None,
    ensures
        session.after_join(Some(id)).0.id == Some(id) || session.after_join(Some(id)).1
            == ActionView::Leave(id),
{
}

/// An event changes the state of a session only along the path connecting,
/// active, closing, closed; a session that has ended stays ended.
pub proof fn lemma_session_moves_forward(
    session: SessionView,
    answer: Option<usize>,
    frame: FrameView,
    now: u64,
)
    ensures
        reachable(session.state, session.after_join(answer).0.state),
        reachable(session.state, session.after_frame(frame, now).0.state),
        reachable(session.state, session.after_tick(now).0.state),
        reachable(session.state, session.after_shutdown().0.state),
        session.ended().state == SessionState::Closed,
{
}

/// A frame that cannot be decoded and a failed lookup are answered to the
/// client that asked and leave the session as it was.
pub proof fn lemma_errors_leave_the_session_open(session: SessionView, text: Seq<char>, now: u64)
    requires
        session.state == SessionState::Active,
        decoded_request(text, session.scope) is Err,
    ensures
        session.after_frame(FrameView::Text(text), now) == (
            session,
            ActionView::Reject(decoded_request(text, session.scope)->Err_0),
        ),
{
}

/// A client that gives a sign of life within the tolerated silence is not
/// given up at the next tick; one that stays silent longer is.
pub proof fn lemma_silence_closes_the_session(session: SessionView, now: u64)
    requires
        session.state == SessionState::Active,
    ensures
        now - session.heart_beat <= session.heartbeat.timeout() ==> session.after_tick(now) == (
            session,
            ActionView::Ping,
        ),
        now - session.heart_beat > session.heartbeat.timeout() ==> session.after_tick(now) == (
            session.moved_to(SessionState::Closing),
            ActionView::Stop,
        ),
{
}

} // verus!
