//! The worker supervisor: one stable identity that connects, waits for the
//! session to end, backs off for a random while and connects again, for
//! ever.
//!
//! Like the session it is a state machine: the caller runs the sessions and
//! does the sleeping, and the supervisor says which of the two comes next.

use rand::Rng;
use vstd::prelude::*;
use vstd::string::*;
use crate::session::SessionError;

verus! {

/// The shortest pause between two connection attempts, in seconds.
pub const BACKOFF_BASE_SECS: u64 = 1;

/// The number of pauses to draw from: the pause is the shortest one plus a
/// whole number of seconds below this.
pub const BACKOFF_SPREAD_SECS: u64 = 5;

/// `Rng::gen_range` on the thread's generator of `rand`, with the range from
/// zero up to, and without, the bound: a number below the bound. Which one
/// is chance. The call panics on an empty range, so the bound is above zero.
#[verifier::external_body]
fn draw_below(bound: u64) -> (drawn: u64)
    requires
        bound > 0,
    ensures
        drawn < bound,
{
    rand::thread_rng().gen_range(0..bound)
}

/// The pause that a drawn number stands for.
pub open spec fn backoff_for(jitter: u64) -> int {
    BACKOFF_BASE_SECS + jitter
}

/// The pause, in seconds, that a drawn number stands for.
pub fn backoff_secs(jitter: u64) -> (secs: u64)
    requires
        jitter < BACKOFF_SPREAD_SECS,
    ensures
        secs == backoff_for(jitter),
        1 <= secs < 6,
{
    BACKOFF_BASE_SECS + jitter
}

/// Draws the pause before the next connection attempt: a whole number of
/// seconds from 1 up to, and without, 6.
pub fn next_backoff() -> (secs: u64)
    ensures
        1 <= secs < 6,
{
    backoff_secs(draw_below(BACKOFF_SPREAD_SECS))
}

/// What a supervisor is doing.
#[derive(Debug, Clone, Copy, PartialEq, Eq, Structural)]
pub enum Stage {
    /// It has not begun.
    Waiting,
    /// A session runs, or is being set up.
    InSession,
    /// The last session has ended and the pause before the next one runs.
    BackingOff,
}

/// What happened to a supervisor.
#[derive(Debug, Clone, Copy, PartialEq, Eq, Structural)]
pub enum SupervisorEvent {
    /// The worker was started.
    Started,
    /// The session has ended, cleanly or with this error; the number was
    /// drawn for the pause.
    SessionEnded { error: Option<SessionError>, jitter: u64 },
    /// The pause is over.
    Woke,
}

/// What the supervisor asks for.
#[derive(Debug, Clone, PartialEq, Eq)]
pub enum SupervisorCommand {
    /// Nothing.
    Idle,
    /// Read the configuration from this path anew, then run one session with
    /// it and come back with [`SupervisorEvent::SessionEnded`].
    Connect { config_path: String },
    /// Wait this many seconds and come back with [`SupervisorEvent::Woke`].
    Sleep { secs: u64 },
}

/// A supervisor's command with its path as a character sequence.
pub enum SupervisorCommandView {
    Idle,
    Connect { config_path: Seq<char> },
    Sleep { secs: u64 },
}

impl View for SupervisorCommand {
    type V = SupervisorCommandView;

    open spec fn view(&self) -> SupervisorCommandView {
        match self {
            SupervisorCommand::Idle => SupervisorCommandView::Idle,
            SupervisorCommand::Connect { config_path } => SupervisorCommandView::Connect {
                config_path: config_path@,
            },
            SupervisorCommand::Sleep { secs } => SupervisorCommandView::Sleep { secs: *secs },
        }
    }
}

/// The supervisor of one worker.
#[derive(Debug)]
pub struct Supervisor {
    worker: String,
    config_path: String,
    protocol_version: u16,
    stage: Stage,
}

/// A supervisor as the state machine sees it.
pub struct SupervisorView {
    pub worker: Seq<char>,
    pub config_path: Seq<char>,
    pub protocol_version: u16,
    pub stage: Stage,
}

impl View for Supervisor {
    type V = SupervisorView;

    closed spec fn view(&self) -> SupervisorView {
        SupervisorView {
            worker: self.worker@,
            config_path: self.config_path@,
            protocol_version: self.protocol_version,
            stage: self.stage,
        }
    }
}

/// The supervisor in another stage.
pub open spec fn staged(s: SupervisorView, stage: Stage) -> SupervisorView {
    SupervisorView { stage, ..s }
}

/// The state machine of a supervisor.
///
/// The start leads to the first connection attempt. The end of a session,
/// however it ended, leads to one pause of the drawn length. The end of the
/// pause leads to one connection attempt, with the configuration read anew.
/// An event that does not belong to the stage changes nothing.
pub open spec fn supervise(s: SupervisorView, event: SupervisorEvent) -> (
    SupervisorView,
    SupervisorCommandView,
) {
    match (s.stage, event) {
        (Stage::Waiting, SupervisorEvent::Started) => (
            staged(s, Stage::InSession),
            SupervisorCommandView::Connect { config_path: s.config_path },
        ),
        (Stage::InSession, SupervisorEvent::SessionEnded { jitter, .. }) => (
            staged(s, Stage::BackingOff),
            SupervisorCommandView::Sleep { secs: backoff_for(jitter) as u64 },
        ),
        (Stage::BackingOff, SupervisorEvent::Woke) => (
            staged(s, Stage::InSession),
            SupervisorCommandView::Connect { config_path: s.config_path },
        ),
        _ => (s, SupervisorCommandView::Idle),
    }
}

/// Whether the number that an event carries was drawn from the right range.
pub open spec fn drawn_in_range(event: SupervisorEvent) -> bool {
    event matches SupervisorEvent::SessionEnded { jitter, .. } ==> jitter < BACKOFF_SPREAD_SECS
}

impl Supervisor {
    /// The supervisor of a worker that has not begun.
    pub fn new(worker: String, config_path: String, protocol_version: u16) -> (supervisor:
        Supervisor)
        ensures
            supervisor@ == (SupervisorView {
                worker: worker@,
                config_path: config_path@,
                protocol_version,
                stage: Stage::Waiting,
            }),
    {
        Supervisor { worker, config_path, protocol_version, stage: Stage::Waiting }
    }

    /// The name of the worker: the same for every session.
    pub fn worker(&self) -> (worker: &String)
        ensures
            worker@ == self@.worker,
    {
        &self.worker
    }

    /// The protocol version: the same for every session.
    pub fn protocol_version(&self) -> (version: u16)
        ensures
            version == self@.protocol_version,
    {
        self.protocol_version
    }

    /// What the supervisor is doing.
    pub fn stage(&self) -> (stage: Stage)
        ensures
            stage == self@.stage,
    {
        self.stage
    }

    /// Takes one event and answers with the command to carry out.
    pub fn step(&mut self, event: SupervisorEvent) -> (command: SupervisorCommand)
        requires
            drawn_in_range(event),
        ensures
            (final(self)@, command@) == supervise(old(self)@, event),
    {
        match (self.stage, event) {
            (Stage::Waiting, SupervisorEvent::Started) => {
                self.stage = Stage::InSession;
                SupervisorCommand::Connect { config_path: self.config_path.clone() }
            },
            (Stage::InSession, SupervisorEvent::SessionEnded { jitter, .. }) => {
                self.stage = Stage::BackingOff;
                SupervisorCommand::Sleep { secs: backoff_secs(jitter) }
            },
            (Stage::BackingOff, SupervisorEvent::Woke) => {
                self.stage = Stage::InSession;
                SupervisorCommand::Connect { config_path: self.config_path.clone() }
            },
            _ => SupervisorCommand::Idle,
        }
    }

    /// Tells the supervisor that the session has ended, cleanly or with an
    /// error. It draws the pause and answers as [`Supervisor::step`] does for
    /// the number drawn.
    pub fn session_ended(&mut self, error: Option<SessionError>) -> (command: SupervisorCommand)
        ensures
            exists|jitter: u64|
                jitter < BACKOFF_SPREAD_SECS && (final(self)@, command@) == #[trigger] supervise(
                    old(self)@,
                    SupervisorEvent::SessionEnded { error, jitter },
                ),
    {
        let jitter = draw_below(BACKOFF_SPREAD_SECS);
        self.step(SupervisorEvent::SessionEnded { error, jitter })
    }
}

/// After a session has ended, however it ended, the supervisor asks for
/// exactly one pause, of 1 to 5 whole seconds; during the pause nothing but
/// its end leads to anything; and its end leads to exactly one connection
/// attempt, for which the configuration is read anew from the same path.
pub proof fn lemma_one_reconnect_after_backoff(
    s: SupervisorView,
    error: Option<SessionError>,
    jitter: u64,
    other: SupervisorEvent,
)
    requires
        s.stage == Stage::InSession,
        jitter < BACKOFF_SPREAD_SECS,
        other != SupervisorEvent::Woke,
    ensures
        ({
            let (paused, pause) = supervise(s, SupervisorEvent::SessionEnded { error, jitter });
            let (again, attempt) = supervise(paused, SupervisorEvent::Woke);
            &&& pause matches SupervisorCommandView::Sleep { secs } && 1 <= secs < 6
            &&& supervise(paused, other) == (paused, SupervisorCommandView::Idle)
            &&& attempt == (SupervisorCommandView::Connect { config_path: s.config_path })
            &&& again == s
            &&& supervise(again, SupervisorEvent::Woke) == (again, SupervisorCommandView::Idle)
        }),
{
}

/// A supervisor never stops: from every stage that it can be in once it has
/// begun, one event leads on, and no event leads back to the stage before
/// the beginning.
pub proof fn lemma_supervisor_never_stops(s: SupervisorView, event: SupervisorEvent)
    requires
        s.stage != Stage::Waiting,
    ensures
        supervise(s, event).0.stage != Stage::Waiting,
        supervise(s, event).0.worker == s.worker,
        supervise(s, event).0.config_path == s.config_path,
        supervise(s, event).0.protocol_version == s.protocol_version,
{
}

} // verus!
