use vstd::prelude::*;
use crate::manager::{
    CoordinatorManager, JoinOutcome, Job, KIND_EXECUTE, N_KINDS, N_PARALLEL, SESSION_TIMEOUT_SECS,
    lemma_slots_len, running_count,
};

verus! {

/// Capacity of the bounded channel between producers and the socket writer.
pub const RESPONSE_CAPACITY: usize = 3;

/// The opening frame, as far as the handshake cares.
pub enum HandshakeFrame {
    /// The peer closed, the transport failed, or the frame was not text.
    NotText,
    /// A text frame that is not a `websocket/connected` message.
    Unparsed,
    /// A `websocket/connected` message with its acceptance flag.
    Connected { accepts_unsupported_api: bool },
}

/// Whether the opening frame lets the session start: it must be a
/// well-formed `websocket/connected` text frame whose payload accepts the
/// unsupported API.
pub open spec fn accepts(frame: HandshakeFrame) -> bool {
    frame matches HandshakeFrame::Connected { accepts_unsupported_api: true }
}

pub fn handshake_accepted(frame: &HandshakeFrame) -> (r: bool)
    ensures
        r == accepts(*frame),
{
    match frame {
        HandshakeFrame::Connected { accepts_unsupported_api } => *accepts_unsupported_api,
        _ => false,
    }
}

/// Kinds of response that pass through the response channel.
#[derive(Clone, Copy, Debug, PartialEq, Eq, Structural)]
pub enum ResponseKind {
    Error,
    ExecuteBegin,
    ExecuteStdout,
    ExecuteStderr,
    ExecuteEnd,
}

/// Kinds of message written to the socket.
#[derive(Clone, Copy, Debug, PartialEq, Eq, Structural)]
pub enum Written {
    HandshakeEcho,
    FeatureFlags,
    Response(ResponseKind),
}

/// An inbound frame after the handshake.
#[derive(Clone, Copy, Debug, PartialEq, Eq, Structural)]
pub enum Inbound {
    /// The peer closed the connection.
    Closed,
    Text,
    /// Binary, ping, pong or close frames.
    NonText,
    /// The transport reported an error.
    TransportError,
}

/// What the session loop woke up for.
#[derive(Clone, Copy, Debug, PartialEq, Eq, Structural)]
pub enum SessionEvent {
    Frame(Inbound),
    /// A response of this kind was taken off the channel, ready to write.
    Outbound(ResponseKind),
    /// Writing the message last handed to the socket failed.
    SendFailed,
    /// The task `id` left the task set with `outcome`.
    Joined { id: u64, outcome: JoinOutcome },
    IdleTimer,
    SessionTimer,
}

/// What the session loop does about an event.
#[derive(Clone, Copy, Debug, PartialEq, Eq, Structural)]
pub enum SessionAction {
    /// Parse the text frame as a request and dispatch it.
    Dispatch,
    /// Nothing to do.
    Ignore,
    /// Hand the transport error to the error sink and go on.
    RecordTransportError,
    /// Write the response to the socket.
    Send,
    /// Enqueue the task's panic text as an error response.
    ReportPanic,
    /// Enqueue the job's own error as an error response.
    ReportJobError,
    /// Idle the backend.
    Idle,
    /// End the session.
    Terminate,
}

#[derive(Clone, Copy, Debug, PartialEq, Eq, Structural)]
pub enum SessionPhase {
    /// Waiting for the opening frame.
    Handshake,
    /// The handshake was echoed; the feature flags go next.
    Accepted,
    /// The loop runs.
    Open,
    Closed,
}

/// The decisions of one session: the handshake gate, the feature flags that
/// follow it, what each event of the loop leads to, the session's jobs, and
/// its deadline.
pub struct Session {
    phase: SessionPhase,
    manager: CoordinatorManager,
    log: Ghost<Seq<Written>>,
}

impl Session {
    pub closed spec fn phase(&self) -> SessionPhase {
        self.phase
    }

    pub closed spec fn manager(&self) -> CoordinatorManager {
        self.manager
    }

    /// The kinds of the messages handed to the socket, in order; a message
    /// whose write failed is taken back out as the session ends.
    pub closed spec fn log(&self) -> Seq<Written> {
        self.log@
    }

    pub closed spec fn wf(&self) -> bool {
        &&& self.manager.wf()
        &&& self.phase == SessionPhase::Handshake ==> self.log@.len() == 0
        &&& self.phase == SessionPhase::Accepted ==> self.log@.len() == 1
        &&& self.phase == SessionPhase::Open ==> self.log@.len() >= 2
        &&& self.log@.len() > 0 ==> self.log@[0] == Written::HandshakeEcho
        &&& self.log@.len() > 1 ==> self.log@[1] == Written::FeatureFlags
        &&& forall|i: int| 1 < i < self.log@.len() ==> self.log@[i] is Response
    }

    pub fn new() -> (r: Session)
        ensures
            r.wf(),
            r.phase() == SessionPhase::Handshake,
            r.log() == Seq::<Written>::empty(),
            r.manager().task_count() == 0,
            r.manager().next_id() == 0,
            r.manager().slots().len() == N_KINDS,
    {
        Session {
            phase: SessionPhase::Handshake,
            manager: CoordinatorManager::new(),
            log: Ghost(Seq::empty()),
        }
    }

    /// Decides the handshake on the opening frame. On acceptance the frame is
    /// echoed and the feature flags are due; otherwise the session closes
    /// with nothing sent.
    pub fn handshake(&mut self, frame: &HandshakeFrame) -> (r: bool)
        requires
            old(self).wf(),
        ensures
            final(self).wf(),
            final(self).manager() == old(self).manager(),
            old(self).phase() != SessionPhase::Handshake ==> !r && final(self).phase() == old(self).phase()
                && final(self).log() == old(self).log(),
            old(self).phase() == SessionPhase::Handshake ==> r == accepts(*frame)
                && final(self).phase() == if r { SessionPhase::Accepted } else { SessionPhase::Closed }
                && final(self).log() == if r { seq![Written::HandshakeEcho] } else { Seq::empty() },
    {
        if self.phase != SessionPhase::Handshake {
            return false;
        }
        if handshake_accepted(frame) {
            self.phase = SessionPhase::Accepted;
            self.log = Ghost(Seq::empty().push(Written::HandshakeEcho));
            assert(self.log@ =~= seq![Written::HandshakeEcho]);
            true
        } else {
            self.phase = SessionPhase::Closed;
            false
        }
    }

    /// Hands the feature flags to the socket right after the handshake
    /// echo, which opens the loop. Refused in any other phase.
    pub fn send_feature_flags(&mut self) -> (r: bool)
        requires
            old(self).wf(),
        ensures
            final(self).wf(),
            final(self).manager() == old(self).manager(),
            r == (old(self).phase() == SessionPhase::Accepted),
            final(self).phase() == if r { SessionPhase::Open } else { old(self).phase() },
            final(self).log() == if r { old(self).log().push(Written::FeatureFlags) } else { old(self).log() },
    {
        if self.phase != SessionPhase::Accepted {
            return false;
        }
        self.phase = SessionPhase::Open;
        self.log = Ghost(self.log@.push(Written::FeatureFlags));
        true
    }

    /// The action for `event`, which happened `now_secs` seconds after the
    /// session was accepted.
    pub open spec fn action_of(&self, event: SessionEvent, now_secs: u64) -> SessionAction {
        if self.phase() != SessionPhase::Open || now_secs >= SESSION_TIMEOUT_SECS {
            SessionAction::Terminate
        } else {
            match event {
                SessionEvent::Frame(Inbound::Closed) => SessionAction::Terminate,
                SessionEvent::Frame(Inbound::Text) => SessionAction::Dispatch,
                SessionEvent::Frame(Inbound::NonText) => SessionAction::Ignore,
                SessionEvent::Frame(Inbound::TransportError) => SessionAction::RecordTransportError,
                SessionEvent::Outbound(_) => SessionAction::Send,
                SessionEvent::SendFailed => SessionAction::Terminate,
                SessionEvent::Joined { id, outcome } => if outcome == JoinOutcome::Panicked {
                    SessionAction::ReportPanic
                } else if outcome == JoinOutcome::Failed {
                    SessionAction::ReportJobError
                } else {
                    SessionAction::Ignore
                },
                SessionEvent::IdleTimer => if self.manager().task_count() == 0 {
                    SessionAction::Idle
                } else {
                    SessionAction::Ignore
                },
                SessionEvent::SessionTimer => SessionAction::Terminate,
            }
        }
    }

    /// Decides what the loop does about `event`, which happened `now_secs`
    /// seconds after acceptance. A response that is sent joins the log, and
    /// a failed write takes the last message back out; a joined task leaves
    /// the task set; termination closes the session and shuts the manager
    /// down.
    pub fn step(&mut self, event: SessionEvent, now_secs: u64) -> (r: SessionAction)
        requires
            old(self).wf(),
        ensures
            final(self).wf(),
            r == old(self).action_of(event, now_secs),
            final(self).phase() == if r == SessionAction::Terminate { SessionPhase::Closed } else { old(self).phase() },
            final(self).log() == match (r, event) {
                (SessionAction::Send, SessionEvent::Outbound(kind)) => old(self).log().push(Written::Response(kind)),
                (SessionAction::Terminate, SessionEvent::SendFailed) => if old(self).log().len() > 0 {
                    old(self).log().drop_last()
                } else {
                    old(self).log()
                },
                _ => old(self).log(),
            },
            final(self).manager().slots().len() == N_KINDS,
            r == SessionAction::Terminate ==> final(self).manager().task_count() == 0,
            r != SessionAction::Terminate && !(event is Joined) ==> final(self).manager() == old(self).manager(),
            r != SessionAction::Terminate && event is Joined ==> {
                let id = event->Joined_id;
                &&& final(self).manager().next_id() == old(self).manager().next_id()
                &&& final(self).manager().task_count() == if old(self).manager().in_task_set(id) {
                    old(self).manager().task_count() - 1
                } else {
                    old(self).manager().task_count() as int
                }
            },
    {
        proof {
            lemma_slots_len(&self.manager);
        }
        if self.phase != SessionPhase::Open || now_secs >= SESSION_TIMEOUT_SECS {
            let write_failed = match event {
                SessionEvent::SendFailed => true,
                _ => false,
            };
            return self.terminate(write_failed);
        }
        match event {
            SessionEvent::Frame(Inbound::Closed) => self.terminate(false),
            SessionEvent::Frame(Inbound::Text) => SessionAction::Dispatch,
            SessionEvent::Frame(Inbound::NonText) => SessionAction::Ignore,
            SessionEvent::Frame(Inbound::TransportError) => SessionAction::RecordTransportError,
            SessionEvent::Outbound(kind) => {
                self.log = Ghost(self.log@.push(Written::Response(kind)));
                SessionAction::Send
            },
            SessionEvent::SendFailed => self.terminate(true),
            SessionEvent::Joined { id, outcome } => {
                self.manager.joined(id);
                if outcome == JoinOutcome::Panicked {
                    SessionAction::ReportPanic
                } else if outcome == JoinOutcome::Failed {
                    SessionAction::ReportJobError
                } else {
                    SessionAction::Ignore
                }
            },
            SessionEvent::IdleTimer => {
                if self.manager.is_empty() {
                    SessionAction::Idle
                } else {
                    SessionAction::Ignore
                }
            },
            SessionEvent::SessionTimer => self.terminate(false),
        }
    }

    /// Registers a new execute job, preempting the live one. Refused once
    /// the session is no longer open (or job ids are used up): the caller
    /// reports the refusal as an error response.
    pub fn spawn_execute(&mut self) -> (r: Option<(u64, Option<u64>)>)
        requires
            old(self).wf(),
        ensures
            final(self).wf(),
            final(self).phase() == old(self).phase(),
            final(self).log() == old(self).log(),
            final(self).manager().slots().len() == N_KINDS,
            r is Some <==> old(self).phase() == SessionPhase::Open && old(self).manager().next_id() < u64::MAX,
            r is None ==> final(self).manager() == old(self).manager(),
            r is Some ==> final(self).manager().task_count() == old(self).manager().task_count() + 1,
            r is Some ==> r->Some_0.0 == old(self).manager().next_id()
                && final(self).manager().next_id() == old(self).manager().next_id() + 1
                && final(self).manager().slots() == old(self).manager().slots().update(
                    KIND_EXECUTE as int, Some(Job { id: r->Some_0.0, running: false }))
                && match old(self).manager().slots()[KIND_EXECUTE as int] {
                    Some(j) => r->Some_0.1 == Some(j.id)
                        && final(self).manager().aborted() == old(self).manager().aborted().push(j.id),
                    None => r->Some_0.1.is_none()
                        && final(self).manager().aborted() == old(self).manager().aborted(),
                },
    {
        proof {
            lemma_slots_len(&self.manager);
        }
        if self.phase != SessionPhase::Open || !self.manager.can_spawn() {
            return None;
        }
        Some(self.manager.spawn(KIND_EXECUTE))
    }

    /// Hands parallelism permits to waiting jobs while fewer than
    /// `N_PARALLEL` are held; returns the ids of the jobs that may now run.
    pub fn grant_permits(&mut self) -> (r: Vec<u64>)
        requires
            old(self).wf(),
        ensures
            final(self).wf(),
            final(self).phase() == old(self).phase(),
            final(self).log() == old(self).log(),
            final(self).manager().slots().len() == N_KINDS,
            final(self).manager().task_count() == old(self).manager().task_count(),
            final(self).manager().next_id() == old(self).manager().next_id(),
            final(self).manager().aborted() == old(self).manager().aborted(),
            forall|x: u64| r@.contains(x) ==> exists|k: int| 0 <= k < N_KINDS
                && old(self).manager().slots()[k] == Some(Job { id: x, running: false })
                && final(self).manager().slots()[k] == Some(Job { id: x, running: true }),
            forall|k: int| 0 <= k < N_KINDS && final(self).manager().slots()[k] is Some
                && !final(self).manager().slots()[k]->Some_0.running
                ==> running_count(final(self).manager().slots()) == N_PARALLEL,
    {
        self.manager.grant_permits()
    }

    fn terminate(&mut self, write_failed: bool) -> (r: SessionAction)
        requires
            old(self).wf(),
        ensures
            final(self).wf(),
            r == SessionAction::Terminate,
            final(self).phase() == SessionPhase::Closed,
            final(self).log() == if write_failed && old(self).log().len() > 0 {
                old(self).log().drop_last()
            } else {
                old(self).log()
            },
            final(self).manager().task_count() == 0,
            final(self).manager().slots().len() == N_KINDS,
    {
        let _ = self.manager.shutdown();
        self.phase = SessionPhase::Closed;
        if write_failed {
            self.log = Ghost(if self.log@.len() > 0 { self.log@.drop_last() } else { self.log@ });
        }
        SessionAction::Terminate
    }
}

/// Nothing is written before the handshake is accepted: while the
/// handshake is pending the log is empty, and any log starts with the echo
/// of the accepted handshake.
pub proof fn lemma_nothing_before_handshake(s: &Session)
    requires
        s.wf(),
    ensures
        s.phase() == SessionPhase::Handshake ==> s.log().len() == 0,
        s.log().len() > 0 ==> s.log()[0] == Written::HandshakeEcho,
        forall|i: int| 0 < i < s.log().len() ==> s.log()[i] != Written::HandshakeEcho,
{
}

/// Feature flags are written at most once per session, and as the first
/// message after the handshake echo.
pub proof fn lemma_feature_flags_first_and_once(s: &Session)
    requires
        s.wf(),
    ensures
        s.phase() == SessionPhase::Open ==> s.log().len() > 1,
        s.log().len() > 1 ==> s.log()[1] == Written::FeatureFlags,
        forall|i: int| 0 <= i < s.log().len() && i != 1 ==> s.log()[i] != Written::FeatureFlags,
{
}

/// The idle timer leads to idling the backend only when the task set is
/// empty.
pub proof fn lemma_idle_only_when_empty(s: &Session, now_secs: u64)
    requires
        s.wf(),
    ensures
        s.action_of(SessionEvent::IdleTimer, now_secs) == SessionAction::Idle ==> s.manager().task_count() == 0,
{
}

/// Whatever happens at or after 45 minutes from acceptance ends the
/// session.
pub proof fn lemma_session_deadline(s: &Session, event: SessionEvent, now_secs: u64)
    requires
        now_secs >= 45 * 60,
    ensures
        s.action_of(event, now_secs) == SessionAction::Terminate,
{
}

/// In an open session before the deadline, a non-text frame is ignored;
/// `step` then leaves the phase, the log and the jobs as they were.
pub proof fn lemma_non_text_ignored(s: &Session, now_secs: u64)
    requires
        s.phase() == SessionPhase::Open,
        now_secs < SESSION_TIMEOUT_SECS,
    ensures
        s.action_of(SessionEvent::Frame(Inbound::NonText), now_secs) == SessionAction::Ignore,
{
}

} // verus!
