use vstd::prelude::*;
use crate::request::{
    ExecuteRequest, ExecuteRequestParseError, ExecuteRequestParseErrorKind, ValidatedExecuteRequest,
    validate_spec,
};

verus! {

/// Final status of one execution, as the backend reports it.
#[derive(Debug)]
pub struct ExecuteStatus {
    pub success: bool,
    pub exit_detail: String,
}

/// What an execute job enqueues on the response channel.
#[derive(Debug)]
pub enum Envelope {
    Begin,
    Stdout(String),
    Stderr(String),
    End { success: bool, exit_detail: String },
}

/// The shape of an [`Envelope`], without its text.
#[derive(Clone, Copy, Debug, PartialEq, Eq, Structural)]
pub enum EnvelopeKind {
    Begin,
    Stdout,
    Stderr,
    End,
}

impl Envelope {
    pub open spec fn kind(&self) -> EnvelopeKind {
        match self {
            Envelope::Begin => EnvelopeKind::Begin,
            Envelope::Stdout(_) => EnvelopeKind::Stdout,
            Envelope::Stderr(_) => EnvelopeKind::Stderr,
            Envelope::End { .. } => EnvelopeKind::End,
        }
    }
}

/// Where an execute job stands.
#[derive(Clone, Copy, Debug, PartialEq, Eq, Structural)]
pub enum DriverPhase {
    /// The backend has not begun the execution yet.
    Starting,
    /// Begun: output streams while the execution runs.
    Streaming,
    /// The execution finished: remaining output is drained.
    Draining,
    /// The end envelope was produced.
    Ended,
    /// The backend failed to begin or to end the execution.
    Failed,
    /// The response channel closed under the job.
    Abandoned,
    /// A newer job of the same kind preempted this one.
    Aborted,
}

/// Outcome recorded for a finished request.
#[derive(Clone, Copy, Debug, PartialEq, Eq, Structural)]
pub enum Outcome {
    Success,
    ErrorUser,
    ErrorServer,
    Abandoned,
}

impl Outcome {
    pub fn from_success(success: bool) -> (r: Outcome)
        ensures
            r == if success { Outcome::Success } else { Outcome::ErrorUser },
    {
        if success {
            Outcome::Success
        } else {
            Outcome::ErrorUser
        }
    }
}

/// A job that either ran to its end or found nobody listening.
#[derive(Debug, PartialEq, Eq, Structural)]
pub enum CompletedOrAbandoned<T> {
    Abandoned,
    Completed(T),
}

/// Why an execute job failed.
#[derive(Debug)]
pub enum ExecuteError {
    /// The request could not be parsed.
    BadRequest { source: ExecuteRequestParseError },
    /// The backend could not begin the execution.
    Begin { detail: String },
    /// The backend could not end the execution.
    End { detail: String },
}

/// The outcome recorded for a job's result: abandoned when the channel
/// closed, a server error when the backend failed, else by its status.
pub fn outcome_of(v: &Result<CompletedOrAbandoned<Outcome>, ExecuteError>) -> (r: Outcome)
    ensures
        r == match v {
            Ok(CompletedOrAbandoned::Abandoned) => Outcome::Abandoned,
            Ok(CompletedOrAbandoned::Completed(o)) => *o,
            Err(_) => Outcome::ErrorServer,
        },
{
    match v {
        Ok(CompletedOrAbandoned::Abandoned) => Outcome::Abandoned,
        Ok(CompletedOrAbandoned::Completed(o)) => *o,
        Err(_) => Outcome::ErrorServer,
    }
}

/// Validates a job's request; a request that does not validate fails the
/// job as a bad request before the backend is asked for anything.
pub fn validate_request(req: ExecuteRequest) -> (r: Result<ValidatedExecuteRequest, ExecuteError>)
    ensures
        r is Ok <==> validate_spec(req.channel@, req.mode@, req.edition@, req.crate_type@) is Ok,
        match (r, validate_spec(req.channel@, req.mode@, req.edition@, req.crate_type@)) {
            (Ok(v), Ok((c, m, e, t))) => v.channel == c && v.mode == m && v.edition == e
                && v.crate_type == t && v.tests == req.tests && v.backtrace == req.backtrace
                && v.code@ == req.code@,
            (Err(ExecuteError::BadRequest { source }), Err(k)) => source.kind() == k
                && source.value() == match k {
                    ExecuteRequestParseErrorKind::Channel => req.channel@,
                    ExecuteRequestParseErrorKind::Mode => req.mode@,
                    ExecuteRequestParseErrorKind::Edition => req.edition@,
                    ExecuteRequestParseErrorKind::CrateType => req.crate_type@,
                },
            _ => false,
        },
{
    match ValidatedExecuteRequest::try_from(req) {
        Ok(v) => Ok(v),
        Err(source) => Err(ExecuteError::BadRequest { source }),
    }
}

/// Whether `log` is what one job may have enqueued: nothing, or one begin
/// followed by output chunks, ending with at most one end envelope.
pub open spec fn well_framed(log: Seq<EnvelopeKind>) -> bool {
    &&& log.len() > 0 ==> log[0] == EnvelopeKind::Begin
    &&& forall|i: int| 0 < i < log.len() ==> log[i] != EnvelopeKind::Begin
    &&& forall|i: int| 0 <= i < log.len() - 1 ==> log[i] != EnvelopeKind::End
}

/// The decisions of one execute job: which envelope to enqueue for each
/// event of the execution, in which order, and when to stop.
pub struct ExecuteDriver {
    phase: DriverPhase,
    status: Option<Result<ExecuteStatus, String>>,
    success: bool,
    log: Ghost<Seq<EnvelopeKind>>,
}

impl ExecuteDriver {
    pub closed spec fn phase(&self) -> DriverPhase {
        self.phase
    }

    /// The kinds of the envelopes this job has handed out for enqueueing,
    /// less an end envelope whose enqueue failed.
    pub closed spec fn log(&self) -> Seq<EnvelopeKind> {
        self.log@
    }

    /// Whether the end envelope was enqueued.
    pub open spec fn ended(&self) -> bool {
        self.log().len() > 0 && self.log().last() == EnvelopeKind::End
    }

    pub closed spec fn wf(&self) -> bool {
        &&& well_framed(self.log@)
        &&& (self.phase == DriverPhase::Starting) == (self.log@.len() == 0
            && self.phase != DriverPhase::Failed && self.phase != DriverPhase::Abandoned
            && self.phase != DriverPhase::Aborted)
        &&& (self.phase == DriverPhase::Ended) == (self.log@.len() > 0 && self.log@.last() == EnvelopeKind::End)
        &&& (self.phase == DriverPhase::Draining) == (self.status is Some)
    }

    pub fn new() -> (r: ExecuteDriver)
        ensures
            r.wf(),
            r.phase() == DriverPhase::Starting,
            r.log() == Seq::<EnvelopeKind>::empty(),
    {
        ExecuteDriver { phase: DriverPhase::Starting, status: None, success: false, log: Ghost(Seq::empty()) }
    }

    /// The backend began the execution (`Ok`) or failed to (`Err`). On
    /// success the begin envelope is produced; a failure ends the job
    /// before anything was enqueued.
    pub fn begun(&mut self, began: Result<(), String>) -> (r: Result<Option<Envelope>, ExecuteError>)
        requires
            old(self).wf(),
        ensures
            final(self).wf(),
            old(self).phase() != DriverPhase::Starting ==> r is Ok && r->Ok_0 is None
                && final(self).phase() == old(self).phase() && final(self).log() == old(self).log(),
            old(self).phase() == DriverPhase::Starting ==> match began {
                Ok(()) => r is Ok && r->Ok_0 is Some && r->Ok_0->Some_0.kind() == EnvelopeKind::Begin
                    && final(self).phase() == DriverPhase::Streaming
                    && final(self).log() == old(self).log().push(EnvelopeKind::Begin),
                Err(e) => r matches Err(ExecuteError::Begin { detail }) && detail@ == e@
                    && final(self).phase() == DriverPhase::Failed && final(self).log() == old(self).log(),
            },
    {
        if self.phase != DriverPhase::Starting {
            return Ok(None);
        }
        match began {
            Ok(()) => {
                self.phase = DriverPhase::Streaming;
                self.log = Ghost(self.log@.push(EnvelopeKind::Begin));
                Ok(Some(Envelope::Begin))
            },
            Err(source) => {
                self.phase = DriverPhase::Failed;
                Err(ExecuteError::Begin { detail: source })
            },
        }
    }

    /// A chunk arrived on stdout (`is_stderr` false) or stderr. While the
    /// job streams or drains it becomes an envelope of that stream; it is
    /// dropped otherwise.
    pub fn output(&mut self, chunk: String, is_stderr: bool) -> (r: Option<Envelope>)
        requires
            old(self).wf(),
        ensures
            final(self).wf(),
            final(self).phase() == old(self).phase(),
            (old(self).phase() == DriverPhase::Streaming || old(self).phase() == DriverPhase::Draining)
                ==> r == Some(if is_stderr { Envelope::Stderr(chunk) } else { Envelope::Stdout(chunk) })
                && final(self).log() == old(self).log().push(
                    if is_stderr { EnvelopeKind::Stderr } else { EnvelopeKind::Stdout }),
            !(old(self).phase() == DriverPhase::Streaming || old(self).phase() == DriverPhase::Draining)
                ==> r is None && final(self).log() == old(self).log(),
    {
        if self.phase == DriverPhase::Streaming || self.phase == DriverPhase::Draining {
            let kind = Ghost(if is_stderr { EnvelopeKind::Stderr } else { EnvelopeKind::Stdout });
            self.log = Ghost(self.log@.push(kind@));
            if is_stderr {
                Some(Envelope::Stderr(chunk))
            } else {
                Some(Envelope::Stdout(chunk))
            }
        } else {
            None
        }
    }

    /// The execution finished with `status`; the job goes on to drain the
    /// output that is already there.
    pub fn task_done(&mut self, status: Result<ExecuteStatus, String>)
        requires
            old(self).wf(),
        ensures
            final(self).wf(),
            final(self).log() == old(self).log(),
            final(self).phase() == if old(self).phase() == DriverPhase::Streaming {
                DriverPhase::Draining
            } else {
                old(self).phase()
            },
            old(self).phase() == DriverPhase::Streaming ==> final(self).status() == match status {
                Ok(st) => Ok((st.success, st.exit_detail@)),
                Err(e) => Err(e@),
            },
    {
        if self.phase == DriverPhase::Streaming {
            self.phase = DriverPhase::Draining;
            self.status = Some(status);
        }
    }

    /// Output is drained: the end envelope carries the status, or the
    /// backend's failure to end comes back as an error.
    pub fn end(&mut self) -> (r: Result<Option<Envelope>, ExecuteError>)
        requires
            old(self).wf(),
        ensures
            final(self).wf(),
            old(self).phase() != DriverPhase::Draining ==> r is Ok && r->Ok_0 is None
                && final(self).phase() == old(self).phase() && final(self).log() == old(self).log(),
            old(self).phase() == DriverPhase::Draining ==> match r {
                Ok(Some(Envelope::End { .. })) => final(self).phase() == DriverPhase::Ended
                    && final(self).log() == old(self).log().push(EnvelopeKind::End),
                Err(ExecuteError::End { .. }) => final(self).phase() == DriverPhase::Failed
                    && final(self).log() == old(self).log(),
                _ => false,
            },
            old(self).phase() == DriverPhase::Draining ==> (r is Ok <==> old(self).status() is Ok),
            old(self).phase() == DriverPhase::Draining ==> match (r, old(self).status()) {
                (Ok(Some(Envelope::End { success, exit_detail })), Ok((s, d))) => success == s
                    && exit_detail@ == d && final(self).end_success() == s,
                (Err(ExecuteError::End { detail }), Err(e)) => detail@ == e,
                _ => true,
            },
    {
        if self.phase != DriverPhase::Draining {
            return Ok(None);
        }
        let status = self.status.take();
        match status {
            Some(Ok(st)) => {
                self.phase = DriverPhase::Ended;
                self.success = st.success;
                self.log = Ghost(self.log@.push(EnvelopeKind::End));
                Ok(Some(Envelope::End { success: st.success, exit_detail: st.exit_detail }))
            },
            Some(Err(source)) => {
                self.phase = DriverPhase::Failed;
                Err(ExecuteError::End { detail: source })
            },
            None => Ok(None),
        }
    }

    /// Whether the status in the end envelope was a success.
    pub closed spec fn end_success(&self) -> bool {
        self.success
    }

    /// The stored status of a draining job, as plain values.
    pub closed spec fn status(&self) -> Result<(bool, Seq<char>), Seq<char>> {
        match self.status {
            Some(Ok(st)) => Ok((st.success, st.exit_detail@)),
            Some(Err(e)) => Err(e@),
            None => Err(Seq::empty()),
        }
    }

    /// An enqueue failed: the channel is closed and the job stops. When it
    /// was the end envelope that could not be enqueued, the job is abandoned
    /// too and that envelope leaves the log. A job that failed or stopped
    /// earlier is left as it is.
    pub fn abandon(&mut self)
        requires
            old(self).wf(),
        ensures
            final(self).wf(),
            final(self).log() == if old(self).phase() == DriverPhase::Ended {
                old(self).log().drop_last()
            } else {
                old(self).log()
            },
            final(self).phase() == if old(self).phase() == DriverPhase::Failed
                || old(self).phase() == DriverPhase::Aborted {
                old(self).phase()
            } else {
                DriverPhase::Abandoned
            },
    {
        if self.phase == DriverPhase::Ended {
            self.log = Ghost(self.log@.drop_last());
            self.phase = DriverPhase::Abandoned;
        } else if self.phase != DriverPhase::Failed && self.phase != DriverPhase::Aborted {
            self.phase = DriverPhase::Abandoned;
            self.status = None;
        }
    }

    /// A newer job of the same kind took over: this one stops where it is.
    pub fn abort(&mut self)
        requires
            old(self).wf(),
        ensures
            final(self).wf(),
            final(self).log() == old(self).log(),
            final(self).phase() == if old(self).is_terminal() { old(self).phase() } else { DriverPhase::Aborted },
    {
        if !self.terminal() {
            self.phase = DriverPhase::Aborted;
            self.status = None;
        }
    }

    pub open spec fn is_terminal(&self) -> bool {
        self.phase() == DriverPhase::Ended || self.phase() == DriverPhase::Failed
            || self.phase() == DriverPhase::Abandoned || self.phase() == DriverPhase::Aborted
    }

    /// Whether the job has stopped for good.
    pub fn terminal(&self) -> (r: bool)
        ensures
            r == self.is_terminal(),
    {
        self.phase == DriverPhase::Ended || self.phase == DriverPhase::Failed
            || self.phase == DriverPhase::Abandoned || self.phase == DriverPhase::Aborted
    }

    /// What the job came to, once it has ended or been abandoned.
    pub fn completion(&self) -> (r: Option<CompletedOrAbandoned<Outcome>>)
        requires
            self.wf(),
        ensures
            r == match self.phase() {
                DriverPhase::Abandoned => Some(CompletedOrAbandoned::Abandoned),
                DriverPhase::Ended => Some(CompletedOrAbandoned::Completed(
                    if self.end_success() { Outcome::Success } else { Outcome::ErrorUser })),
                _ => None,
            },
    {
        match self.phase {
            DriverPhase::Abandoned => Some(CompletedOrAbandoned::Abandoned),
            DriverPhase::Ended => Some(CompletedOrAbandoned::Completed(Outcome::from_success(self.success))),
            _ => None,
        }
    }
}

/// A job enqueues at most one begin envelope, and it comes first; at most
/// one end envelope, and it comes last. The end envelope is there exactly
/// when the job ended, so a job that began and stopped without one was
/// aborted, abandoned, or failed on the backend.
pub proof fn lemma_begin_end_once(d: &ExecuteDriver)
    requires
        d.wf(),
    ensures
        d.log().len() > 0 ==> d.log()[0] == EnvelopeKind::Begin,
        forall|i: int| 0 < i < d.log().len() ==> d.log()[i] != EnvelopeKind::Begin,
        forall|i: int| 0 <= i < d.log().len() - 1 ==> d.log()[i] != EnvelopeKind::End,
        d.ended() <==> d.phase() == DriverPhase::Ended,
        d.log().len() > 0 && d.is_terminal() && !d.ended() ==> d.phase() == DriverPhase::Aborted
            || d.phase() == DriverPhase::Abandoned || d.phase() == DriverPhase::Failed,
{
}

} // verus!
