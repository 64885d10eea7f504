//! One session: the life of one connection, from the handshake to its end.
//!
//! The session is a state machine. Whoever owns the socket tells it what
//! happened, one [`Event`] at a time, and does what it answers, one
//! [`Command`] at a time. Every producer of outbound frames goes through
//! these commands, so one queue with one consumer is all that writes to the
//! socket.

use vstd::prelude::*;
use vstd::string::*;
use vstd::utf8::encode_utf8;
use crate::codec::{
    decoded_text, members_of, read_ws_message, rendered, write_ws_message, ParseError,
};
use crate::config::Config;
use crate::dispatch::{
    dispatch, handle_request, reaction_to, response_to, FetchOutcome, Reaction, ReactionView,
};
use crate::message::{Message, MessageView, WSRegisterMessageV1, WSRegisterMessageV2};

verus! {

/// The time between two keepalive pings, in milliseconds.
pub const KEEPALIVE_PERIOD_MS: u64 = 60000;

/// A frame on the socket, as far as the session tells frames apart.
#[derive(Debug, Clone, PartialEq, Eq)]
pub enum Frame {
    Text(String),
    Ping(Vec<u8>),
    Pong(Vec<u8>),
    Close,
    /// Any frame of another kind.
    Other,
}

/// A frame with its content as a sequence.
pub enum FrameView {
    Text(Seq<char>),
    Ping(Seq<u8>),
    Pong(Seq<u8>),
    Close,
    Other,
}

impl View for Frame {
    type V = FrameView;

    open spec fn view(&self) -> FrameView {
        match self {
            Frame::Text(text) => FrameView::Text(text@),
            Frame::Ping(bytes) => FrameView::Ping(bytes@),
            Frame::Pong(bytes) => FrameView::Pong(bytes@),
            Frame::Close => FrameView::Close,
            Frame::Other => FrameView::Other,
        }
    }
}

/// Where a session stands.
#[derive(Debug, Clone, Copy, PartialEq, Eq, Structural)]
pub enum Phase {
    /// The handshake is under way.
    Connecting,
    /// The socket is open and the registration is on its way to the queue.
    Registering,
    /// Messages are dispatched and keepalive pings are sent.
    Active,
    /// The session has ended; what still runs is being stopped.
    Terminating,
    /// Nothing runs any more.
    Closed,
}

/// Why a session ended, where it did not end by a clean close.
#[derive(Debug, Clone, Copy, PartialEq, Eq, Structural)]
pub enum SessionError {
    /// The target was malformed or the handshake request could not be built.
    Setup,
    /// The connection was refused or the handshake failed.
    Connect,
    /// Receiving from the socket failed.
    Receive,
    /// A frame could not be sent.
    Send,
    /// A keepalive ping could not be sent.
    PingFailure,
}

impl SessionError {
    /// The error in words.
    pub fn describe(&self) -> (text: String)
        ensures
            text@ == (match *self {
                SessionError::Setup => "unable to set up the connection"@,
                SessionError::Connect => "unable to connect to server"@,
                SessionError::Receive => "unable to receive from server"@,
                SessionError::Send => "unable to send to server"@,
                SessionError::PingFailure => "unable to ping server"@,
            }),
    {
        match self {
            SessionError::Setup => String::from_str("unable to set up the connection"),
            SessionError::Connect => String::from_str("unable to connect to server"),
            SessionError::Receive => String::from_str("unable to receive from server"),
            SessionError::Send => String::from_str("unable to send to server"),
            SessionError::PingFailure => String::from_str("unable to ping server"),
        }
    }
}

/// What happened to a session.
#[derive(Debug, Clone, PartialEq, Eq)]
pub enum Event {
    /// The target was malformed or the handshake request could not be built.
    SetupFailed,
    /// The connection was refused or the handshake failed.
    ConnectFailed,
    /// The handshake succeeded.
    Connected,
    /// The queue took the registration.
    Registered,
    /// A frame came in.
    Received(Frame),
    /// Receiving failed.
    ReceiveFailed,
    /// The inbound stream ended.
    InboundEnded,
    /// The keepalive period has passed, or the session has just become
    /// active.
    Tick,
    /// The queue refused a keepalive ping.
    PingFailed,
    /// A frame could not be sent.
    SendFailed,
    /// The fetch for the request of this uid has ended.
    Fetched { uid: String, outcome: FetchOutcome },
    /// Everything that ran for the session has stopped.
    Stopped,
}

/// What the session asks for.
#[derive(Debug, Clone, PartialEq, Eq)]
pub enum Command {
    /// Nothing.
    Idle,
    /// Put this frame on the outbound queue.
    Send(Frame),
    /// Fetch this URL off the message lane and come back with
    /// [`Event::Fetched`] under this uid.
    Fetch { uid: String, url: String },
}

/// A command with its texts as character sequences.
pub enum CommandView {
    Idle,
    Send(FrameView),
    Fetch { uid: Seq<char>, url: Seq<char> },
}

impl View for Command {
    type V = CommandView;

    open spec fn view(&self) -> CommandView {
        match self {
            Command::Idle => CommandView::Idle,
            Command::Send(frame) => CommandView::Send(frame@),
            Command::Fetch { uid, url } => CommandView::Fetch { uid: uid@, url: url@ },
        }
    }
}

/// A session: its phase, whose it is, what it was configured with, and the
/// error that ended it, if one did.
#[derive(Debug)]
pub struct Session {
    phase: Phase,
    worker: String,
    protocol_version: u16,
    config: Config,
    error: Option<SessionError>,
}

/// A session as the state machine sees it.
pub struct SessionView {
    pub phase: Phase,
    pub worker: Seq<char>,
    pub protocol_version: u16,
    pub config: Config,
    pub error: Option<SessionError>,
}

impl View for Session {
    type V = SessionView;

    closed spec fn view(&self) -> SessionView {
        SessionView {
            phase: self.phase,
            worker: self.worker@,
            protocol_version: self.protocol_version,
            config: self.config,
            error: self.error,
        }
    }
}

/// The registration of a worker: under version 1 the instance alone, under
/// any other version the instance, the worker and the version number 2.
pub open spec fn registration(
    protocol_version: u16,
    instance: Seq<char>,
    worker: Seq<char>,
) -> MessageView {
    if protocol_version == 1 {
        MessageView::RegisterV1 { instance }
    } else {
        MessageView::RegisterV2 { instance, worker, version: 2 }
    }
}

/// The text frame that carries a message.
pub open spec fn text_frame(message: MessageView) -> FrameView {
    FrameView::Text(rendered(members_of(message)))
}

/// The command that carries out a reaction of the dispatcher.
pub open spec fn command_for(reaction: ReactionView) -> CommandView {
    match reaction {
        ReactionView::Reply(message) => CommandView::Send(text_frame(message)),
        ReactionView::Fetch { uid, url } => CommandView::Fetch { uid, url },
        ReactionView::Ignore => CommandView::Idle,
    }
}

/// The session in another phase.
pub open spec fn moved(s: SessionView, phase: Phase) -> SessionView {
    SessionView { phase, ..s }
}

/// The session ended by an error.
pub open spec fn failed(s: SessionView, phase: Phase, error: SessionError) -> SessionView {
    SessionView { phase, error: Some(error), ..s }
}

/// What an active session does with a decoded text: a message is
/// dispatched, and a text that is no message is dropped. Either way the
/// session itself stays as it is.
pub open spec fn on_message(s: SessionView, decoded: Result<MessageView, ParseError>) -> (
    SessionView,
    CommandView,
) {
    match decoded {
        Ok(message) => (s, command_for(reaction_to(message, s.worker, s.config.resources@))),
        Err(_) => (s, CommandView::Idle),
    }
}

/// What an active session does with a frame.
///
/// A text is decoded and dispatched. A close frame is answered with one and
/// ends the session. Pings, pongs and other frames need nothing.
pub open spec fn on_frame(s: SessionView, frame: Frame) -> (SessionView, CommandView) {
    match frame {
        Frame::Text(text) => on_message(s, decoded_text(text@)),
        Frame::Close => (moved(s, Phase::Terminating), CommandView::Send(FrameView::Close)),
        _ => (s, CommandView::Idle),
    }
}

/// The state machine: the session after an event, and the command to carry
/// out.
///
/// Connecting: success leads to registering, with the registration to send;
/// a failure closes the session. Registering: once the queue has taken the
/// registration the session is active; a send failure ends it. Active:
/// frames are dispatched, a tick sends a ping with the worker's name, a
/// finished fetch sends its response, and a close frame, the end of the
/// inbound stream or any failure ends the session. Terminating: nothing but
/// the stop of what still ran, which closes the session. Closed: nothing.
pub open spec fn step_of(s: SessionView, event: Event) -> (SessionView, CommandView) {
    match s.phase {
        Phase::Connecting => match event {
            Event::Connected => (
                moved(s, Phase::Registering),
                CommandView::Send(
                    text_frame(registration(s.protocol_version, s.config.instance@, s.worker)),
                ),
            ),
            Event::SetupFailed => (failed(s, Phase::Closed, SessionError::Setup), CommandView::Idle),
            Event::ConnectFailed => (
                failed(s, Phase::Closed, SessionError::Connect),
                CommandView::Idle,
            ),
            _ => (s, CommandView::Idle),
        },
        Phase::Registering => match event {
            Event::Registered => (moved(s, Phase::Active), CommandView::Idle),
            Event::SendFailed => (
                failed(s, Phase::Terminating, SessionError::Send),
                CommandView::Idle,
            ),
            _ => (s, CommandView::Idle),
        },
        Phase::Active => match event {
            Event::Received(frame) => on_frame(s, frame),
            Event::ReceiveFailed => (
                failed(s, Phase::Terminating, SessionError::Receive),
                CommandView::Send(FrameView::Close),
            ),
            Event::InboundEnded => (moved(s, Phase::Terminating), CommandView::Idle),
            Event::Tick => (s, CommandView::Send(FrameView::Ping(encode_utf8(s.worker)))),
            Event::PingFailed => (
                failed(s, Phase::Terminating, SessionError::PingFailure),
                CommandView::Idle,
            ),
            Event::SendFailed => (
                failed(s, Phase::Terminating, SessionError::Send),
                CommandView::Idle,
            ),
            Event::Fetched { uid, outcome } => (
                s,
                CommandView::Send(text_frame(response_to(uid@, outcome))),
            ),
            _ => (s, CommandView::Idle),
        },
        Phase::Terminating => match event {
            Event::Stopped => (moved(s, Phase::Closed), CommandView::Idle),
            _ => (s, CommandView::Idle),
        },
        Phase::Closed => (s, CommandView::Idle),
    }
}

/// The message that registers a worker.
pub fn register_message(protocol_version: u16, instance: &str, worker: &str) -> (message: Message)
    ensures
        message@ == registration(protocol_version, instance@, worker@),
{
    if protocol_version == 1 {
        Message::RegisterV1(WSRegisterMessageV1 { instance: instance.to_owned() })
    } else {
        Message::RegisterV2(
            WSRegisterMessageV2 {
                instance: instance.to_owned(),
                worker: worker.to_owned(),
                version: 2,
            },
        )
    }
}

/// The keepalive ping of a worker: a ping frame with the worker's name as
/// its payload.
pub fn keepalive_ping(worker: &str) -> (frame: Frame)
    ensures
        frame@ == FrameView::Ping(encode_utf8(worker@)),
{
    Frame::Ping(worker.as_bytes_vec())
}

fn carry_out(reaction: Reaction) -> (command: Command)
    ensures
        command@ == command_for(reaction@),
{
    match reaction {
        Reaction::Reply(message) => Command::Send(Frame::Text(write_ws_message(&message))),
        Reaction::Fetch { uid, url } => Command::Fetch { uid, url },
        Reaction::Ignore => Command::Idle,
    }
}

impl Session {
    /// A session that is about to connect.
    pub fn new(worker: String, protocol_version: u16, config: Config) -> (session: Session)
        ensures
            session@ == (SessionView {
                phase: Phase::Connecting,
                worker: worker@,
                protocol_version,
                config,
                error: None,
            }),
    {
        Session { phase: Phase::Connecting, worker, protocol_version, config, error: None }
    }

    /// Where the session stands.
    pub fn phase(&self) -> (phase: Phase)
        ensures
            phase == self@.phase,
    {
        self.phase
    }

    /// The error that ended the session; none while it runs, and none after
    /// a clean close.
    pub fn error(&self) -> (error: Option<SessionError>)
        ensures
            error == self@.error,
    {
        self.error
    }

    /// The configuration that the session was started with.
    pub fn config(&self) -> (config: &Config)
        ensures
            *config == self@.config,
    {
        &self.config
    }

    /// The name of the worker whose session this is.
    pub fn worker(&self) -> (worker: &String)
        ensures
            worker@ == self@.worker,
    {
        &self.worker
    }

    fn end(&mut self, phase: Phase, error: SessionError)
        ensures
            final(self)@ == failed(old(self)@, phase, error),
    {
        self.phase = phase;
        self.error = Some(error);
    }

    fn receive(&mut self, frame: Frame) -> (command: Command)
        ensures
            (final(self)@, command@) == on_frame(old(self)@, frame),
    {
        match frame {
            Frame::Text(text) => match read_ws_message(text) {
                Ok(message) => carry_out(dispatch(&message, self.worker.as_str(), &self.config)),
                Err(_) => Command::Idle,
            },
            Frame::Close => {
                self.phase = Phase::Terminating;
                Command::Send(Frame::Close)
            },
            _ => Command::Idle,
        }
    }

    /// Takes one event and answers with the command to carry out.
    pub fn step(&mut self, event: Event) -> (command: Command)
        ensures
            (final(self)@, command@) == step_of(old(self)@, event),
    {
        match self.phase {
            Phase::Connecting => match event {
                Event::Connected => {
                    self.phase = Phase::Registering;
                    let message = register_message(
                        self.protocol_version,
                        self.config.instance.as_str(),
                        self.worker.as_str(),
                    );
                    Command::Send(Frame::Text(write_ws_message(&message)))
                },
                Event::SetupFailed => {
                    self.end(Phase::Closed, SessionError::Setup);
                    Command::Idle
                },
                Event::ConnectFailed => {
                    self.end(Phase::Closed, SessionError::Connect);
                    Command::Idle
                },
                _ => Command::Idle,
            },
            Phase::Registering => match event {
                Event::Registered => {
                    self.phase = Phase::Active;
                    Command::Idle
                },
                Event::SendFailed => {
                    self.end(Phase::Terminating, SessionError::Send);
                    Command::Idle
                },
                _ => Command::Idle,
            },
            Phase::Active => match event {
                Event::Received(frame) => self.receive(frame),
                Event::ReceiveFailed => {
                    self.end(Phase::Terminating, SessionError::Receive);
                    Command::Send(Frame::Close)
                },
                Event::InboundEnded => {
                    self.phase = Phase::Terminating;
                    Command::Idle
                },
                Event::Tick => Command::Send(keepalive_ping(self.worker.as_str())),
                Event::PingFailed => {
                    self.end(Phase::Terminating, SessionError::PingFailure);
                    Command::Idle
                },
                Event::SendFailed => {
                    self.end(Phase::Terminating, SessionError::Send);
                    Command::Idle
                },
                Event::Fetched { uid, outcome } => {
                    let response = Message::Response(handle_request(uid, outcome));
                    Command::Send(Frame::Text(write_ws_message(&response)))
                },
                _ => Command::Idle,
            },
            Phase::Terminating => match event {
                Event::Stopped => {
                    self.phase = Phase::Closed;
                    Command::Idle
                },
                _ => Command::Idle,
            },
            Phase::Closed => Command::Idle,
        }
    }
}

/// How far a phase is along the life of a session.
pub open spec fn rank(phase: Phase) -> nat {
    match phase {
        Phase::Connecting => 0,
        Phase::Registering => 1,
        Phase::Active => 2,
        Phase::Terminating => 3,
        Phase::Closed => 4,
    }
}

/// The session after a run of events.
pub open spec fn run(s: SessionView, events: Seq<Event>) -> SessionView
    decreases events.len(),
{
    if events.len() == 0 {
        s
    } else {
        step_of(run(s, events.drop_last()), events.last()).0
    }
}

/// No event takes a session back to an earlier phase.
pub proof fn lemma_phase_never_goes_back(s: SessionView, event: Event)
    ensures
        rank(step_of(s, event).0.phase) >= rank(s.phase),
{
}

/// Over any run of events the phase only moves forward. A session that has
/// left the active phase is therefore never active again.
pub proof fn lemma_run_never_goes_back(s: SessionView, events: Seq<Event>)
    ensures
        rank(run(s, events).phase) >= rank(s.phase),
        rank(s.phase) > rank(Phase::Active) ==> run(s, events).phase != Phase::Active,
    decreases events.len(),
{
    if events.len() > 0 {
        lemma_run_never_goes_back(s, events.drop_last());
        lemma_phase_never_goes_back(run(s, events.drop_last()), events.last());
    }
}

/// A session keeps its worker, its protocol version and its configuration
/// for as long as it lives.
pub proof fn lemma_step_keeps_identity(s: SessionView, event: Event)
    ensures
        step_of(s, event).0.worker == s.worker,
        step_of(s, event).0.protocol_version == s.protocol_version,
        step_of(s, event).0.config == s.config,
{
}

/// Frames, ticks and finished fetches lead to a command in the active phase
/// alone: outside it nothing is dispatched and no ping is sent. The one
/// command of another phase is the registration on connecting.
pub proof fn lemma_only_active_sessions_act(s: SessionView, event: Event)
    requires
        s.phase != Phase::Active,
        !(s.phase == Phase::Connecting && event is Connected),
    ensures
        step_of(s, event).1 == CommandView::Idle,
{
}

/// Once a session has ended, the error that ended it stays: a clean close
/// stays clean, and the first error is the one reported.
pub proof fn lemma_ended_session_keeps_error(s: SessionView, event: Event)
    requires
        s.phase == Phase::Terminating || s.phase == Phase::Closed,
    ensures
        step_of(s, event).0.error == s.error,
{
}

/// A text that is no message is dropped: the session goes on as it was and
/// nothing is sent.
pub proof fn lemma_bad_text_dropped(s: SessionView, error: ParseError)
    ensures
        on_message(s, Err(error)) == (s, CommandView::Idle),
{
}

/// A message of an unknown type is ignored: the session goes on as it was
/// and nothing is sent.
pub proof fn lemma_unknown_message_ignored(s: SessionView)
    ensures
        on_message(s, Ok(MessageView::Unknown)) == (s, CommandView::Idle),
{
}

/// Requests do not wait for each other. Two requests for resources of the
/// table are each answered by a fetch at once, the session being as ready
/// for the second as it was for the first; and when the fetch of the second
/// ends before that of the first, its response is sent first, each under the
/// uid of its own request.
pub proof fn lemma_requests_do_not_block(
    s: SessionView,
    first_uid: String,
    first_resource: Seq<char>,
    first_outcome: FetchOutcome,
    second_uid: String,
    second_resource: Seq<char>,
    second_outcome: FetchOutcome,
)
    requires
        s.phase == Phase::Active,
        s.config.resources@.contains_key(first_resource),
        s.config.resources@.contains_key(second_resource),
    ensures
        ({
            let (s1, c1) = on_message(
                s,
                Ok(MessageView::Request { uid: first_uid@, resource: first_resource }),
            );
            let (s2, c2) = on_message(
                s1,
                Ok(MessageView::Request { uid: second_uid@, resource: second_resource }),
            );
            let (s3, c3) = step_of(
                s2,
                Event::Fetched { uid: second_uid, outcome: second_outcome },
            );
            let (s4, c4) = step_of(s3, Event::Fetched { uid: first_uid, outcome: first_outcome });
            &&& c1 == (CommandView::Fetch {
                uid: first_uid@,
                url: s.config.resources@[first_resource],
            })
            &&& c2 == (CommandView::Fetch {
                uid: second_uid@,
                url: s.config.resources@[second_resource],
            })
            &&& c3 == CommandView::Send(text_frame(response_to(second_uid@, second_outcome)))
            &&& c4 == CommandView::Send(text_frame(response_to(first_uid@, first_outcome)))
            &&& s4 == s
        }),
{
}

} // verus!
