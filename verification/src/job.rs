//! The lifecycle of one external job, as a state machine that a host drives.
//!
//! The host owns the child process. It tells the runner what it wants
//! (`start`, `stop`) and what it saw (`observe`), and does what the returned
//! `JobAction` says. The runner itself touches no process and no stream.

use vstd::prelude::*;

verus! {

/// Where a job stands.
#[derive(Debug, Clone, Copy, PartialEq, Eq, Structural)]
pub enum JobState {
    Idle,
    Spawning,
    Running,
    Succeeded,
    Failed,
    Killed,
}

/// The kind of job that a manager runs.
#[derive(Debug, Clone, Copy, PartialEq, Eq, Structural)]
pub enum JobKind {
    Training,
    Inference,
}

/// One of the two output streams of the child process.
#[derive(Debug, Clone, Copy, PartialEq, Eq, Structural)]
pub enum StreamKind {
    Stdout,
    Stderr,
}

/// Why a job was refused or never got under way.
#[derive(Debug, Clone, Copy, PartialEq, Eq)]
pub enum JobError {
    /// A job is in flight already; it is left as it is.
    AlreadyRunning,
    /// The process could not be created.
    SpawnFailed,
    /// The process was created but did not hand over this stream.
    CaptureFailed(StreamKind),
}

/// Whether the process has been seen to exit, and with which code.
#[derive(Debug, Clone, Copy, PartialEq, Eq)]
pub enum ExitWait {
    Pending,
    /// `None` where the platform gave no code, as after a signal.
    Exited(Option<i32>),
}

/// How a job ended, once both streams were drained and the exit was seen.
#[derive(Debug, Clone, Copy, PartialEq, Eq)]
pub enum JobOutcome {
    Succeeded,
    /// `code` is the exit code, or -1 where there was none.
    Failed { code: i32 },
    Killed,
}

/// What the host saw happen to the child process.
#[derive(Debug, Clone, Copy, PartialEq, Eq)]
pub enum JobSignal {
    SpawnFailed,
    Spawned { stdout_captured: bool, stderr_captured: bool },
    /// The stream ended, or a read on it failed.
    StdoutClosed,
    /// The stream ended, or a read on it failed.
    StderrClosed,
    Exited { code: Option<i32> },
}

/// What the host does next.
#[derive(Debug, Clone, Copy, PartialEq, Eq)]
pub enum JobAction {
    Nothing,
    /// Create the process and report `Spawned` or `SpawnFailed`.
    Spawn,
    /// Send the termination signal, then go on reporting as before.
    Kill,
    /// Hand this error to whoever asked for the job. After `CaptureFailed`
    /// the child exists and is to be terminated.
    Reject(JobError),
    /// The job is over: deliver this, once.
    Finish(JobOutcome),
}

/// A request or a signal: one step of a job's history.
#[derive(Debug, Clone, Copy, PartialEq, Eq)]
pub enum JobInput {
    Start,
    Stop,
    Signal(JobSignal),
}

/// The record of a job: its state and what has been seen of its process.
/// A `JobRunner` holds one and keeps it well-formed.
#[derive(Debug, Clone, Copy, PartialEq, Eq)]
pub struct JobModel {
    pub state: JobState,
    pub stdout_open: bool,
    pub stderr_open: bool,
    pub exit: ExitWait,
    pub stop_requested: bool,
}

impl JobKind {
    /// The word for this kind of job at the head of a diagnostic.
    pub open spec fn label_text(self) -> Seq<char> {
        match self {
            JobKind::Training => "Training"@,
            JobKind::Inference => "Inference"@,
        }
    }

    /// The word for this kind of job inside a sentence.
    pub open spec fn noun_text(self) -> Seq<char> {
        match self {
            JobKind::Training => "training"@,
            JobKind::Inference => "inference"@,
        }
    }

    pub fn label(&self) -> (text: &'static str)
        ensures
            text@ == self.label_text(),
    {
        match self {
            JobKind::Training => "Training",
            JobKind::Inference => "Inference",
        }
    }

    pub fn noun(&self) -> (text: &'static str)
        ensures
            text@ == self.noun_text(),
    {
        match self {
            JobKind::Training => "training",
            JobKind::Inference => "inference",
        }
    }
}

impl StreamKind {
    /// The name of the stream.
    pub open spec fn name_text(self) -> Seq<char> {
        match self {
            StreamKind::Stdout => "stdout"@,
            StreamKind::Stderr => "stderr"@,
        }
    }

    pub fn name(&self) -> (text: &'static str)
        ensures
            text@ == self.name_text(),
    {
        match self {
            StreamKind::Stdout => "stdout",
            StreamKind::Stderr => "stderr",
        }
    }
}

impl JobError {
    /// The one message that tells the user of this error.
    pub open spec fn message_text(self, kind: JobKind) -> Seq<char> {
        match self {
            JobError::AlreadyRunning => kind.label_text() + " job already running"@,
            JobError::SpawnFailed => "Failed to spawn "@ + kind.noun_text() + " process"@,
            JobError::CaptureFailed(stream) => "Failed to capture "@ + stream.name_text(),
        }
    }

    /// The message of this error for a job of this kind.
    pub fn message(&self, kind: JobKind) -> (text: String)
        ensures
            text@ == self.message_text(kind),
    {
        match self {
            JobError::AlreadyRunning => {
                let mut text = kind.label().to_owned();
                text.append(" job already running");
                text
            },
            JobError::SpawnFailed => {
                let mut text = "Failed to spawn ".to_owned();
                text.append(kind.noun());
                text.append(" process");
                text
            },
            JobError::CaptureFailed(stream) => {
                let mut text = "Failed to capture ".to_owned();
                text.append(stream.name());
                text
            },
        }
    }
}

impl JobOutcome {
    /// The terminal state that records this outcome.
    pub open spec fn state(self) -> JobState {
        match self {
            JobOutcome::Succeeded => JobState::Succeeded,
            JobOutcome::Failed { .. } => JobState::Failed,
            JobOutcome::Killed => JobState::Killed,
        }
    }
}

impl JobModel {
    pub open spec fn idle() -> JobModel {
        JobModel {
            state: JobState::Idle,
            stdout_open: false,
            stderr_open: false,
            exit: ExitWait::Pending,
            stop_requested: false,
        }
    }

    /// A job is in flight: asked for, and not yet over.
    pub open spec fn is_running(self) -> bool {
        self.state == JobState::Spawning || self.state == JobState::Running
    }

    /// Both drains have finished and the exit has been seen.
    pub open spec fn joined(self) -> bool {
        !self.stdout_open && !self.stderr_open && self.exit is Exited
    }

    /// How the job ends, given what has been recorded. A stop that was
    /// honoured wins over the exit code; code 0 is success; any other code
    /// is reported as it is, and a missing one as -1.
    pub open spec fn outcome(self) -> JobOutcome {
        if self.stop_requested {
            JobOutcome::Killed
        } else {
            match self.exit {
                ExitWait::Exited(Some(code)) => if code == 0 {
                    JobOutcome::Succeeded
                } else {
                    JobOutcome::Failed { code }
                },
                _ => JobOutcome::Failed { code: (-1i32) },
            }
        }
    }

    /// What holds of every state that `start`, `stop` and `observe` can reach
    /// from idle.
    pub open spec fn wf(self) -> bool {
        match self.state {
            JobState::Idle | JobState::Spawning => {
                &&& !self.stdout_open
                &&& !self.stderr_open
                &&& self.exit is Pending
                &&& !self.stop_requested
            },
            JobState::Running => !self.joined(),
            JobState::Succeeded => {
                &&& self.joined()
                &&& !self.stop_requested
                &&& self.exit == ExitWait::Exited(Some(0i32))
            },
            JobState::Killed => self.joined() && self.stop_requested,
            JobState::Failed => {
                &&& !self.stdout_open
                &&& !self.stderr_open
                &&& !self.stop_requested
                &&& self.exit != ExitWait::Exited(Some(0i32))
            },
        }
    }

    /// A request for a new job: refused while one is in flight, else the
    /// record is cleared and the process is to be spawned.
    pub open spec fn start(self) -> (JobModel, JobAction) {
        if self.is_running() {
            (self, JobAction::Reject(JobError::AlreadyRunning))
        } else {
            (JobModel { state: JobState::Spawning, ..Self::idle() }, JobAction::Spawn)
        }
    }

    /// A request to cancel: honoured while the process runs and has not been
    /// seen to exit, once; otherwise nothing happens.
    pub open spec fn stop(self) -> (JobModel, JobAction) {
        if self.state == JobState::Running && self.exit is Pending && !self.stop_requested {
            (JobModel { stop_requested: true, ..self }, JobAction::Kill)
        } else {
            (self, JobAction::Nothing)
        }
    }

    /// After one of the three waits has ended: the job is over when all
    /// three have.
    pub open spec fn settle(self) -> (JobModel, JobAction) {
        if self.joined() {
            (JobModel { state: self.outcome().state(), ..self }, JobAction::Finish(self.outcome()))
        } else {
            (self, JobAction::Nothing)
        }
    }

    /// The record with the state `Failed` and nothing open.
    pub open spec fn aborted(self) -> JobModel {
        JobModel { state: JobState::Failed, stdout_open: false, stderr_open: false, ..self }
    }

    /// What a signal from the host does. A signal that the current state
    /// does not wait for changes nothing.
    pub open spec fn observe(self, signal: JobSignal) -> (JobModel, JobAction) {
        match signal {
            JobSignal::SpawnFailed => if self.state == JobState::Spawning {
                (self.aborted(), JobAction::Reject(JobError::SpawnFailed))
            } else {
                (self, JobAction::Nothing)
            },
            JobSignal::Spawned { stdout_captured, stderr_captured } => if self.state
                != JobState::Spawning {
                (self, JobAction::Nothing)
            } else if !stdout_captured {
                (self.aborted(), JobAction::Reject(JobError::CaptureFailed(StreamKind::Stdout)))
            } else if !stderr_captured {
                (self.aborted(), JobAction::Reject(JobError::CaptureFailed(StreamKind::Stderr)))
            } else {
                (
                    JobModel {
                        state: JobState::Running,
                        stdout_open: true,
                        stderr_open: true,
                        ..self
                    },
                    JobAction::Nothing,
                )
            },
            JobSignal::StdoutClosed => if self.state == JobState::Running && self.stdout_open {
                JobModel { stdout_open: false, ..self }.settle()
            } else {
                (self, JobAction::Nothing)
            },
            JobSignal::StderrClosed => if self.state == JobState::Running && self.stderr_open {
                JobModel { stderr_open: false, ..self }.settle()
            } else {
                (self, JobAction::Nothing)
            },
            JobSignal::Exited { code } => if self.state == JobState::Running
                && self.exit is Pending {
                JobModel { exit: ExitWait::Exited(code), ..self }.settle()
            } else {
                (self, JobAction::Nothing)
            },
        }
    }

    /// One step of a history.
    pub open spec fn step(self, input: JobInput) -> (JobModel, JobAction) {
        match input {
            JobInput::Start => self.start(),
            JobInput::Stop => self.stop(),
            JobInput::Signal(signal) => self.observe(signal),
        }
    }

    /// The state after a whole history.
    pub open spec fn after(self, inputs: Seq<JobInput>) -> JobModel
        decreases inputs.len(),
    {
        if inputs.len() == 0 {
            self
        } else {
            self.after(inputs.drop_last()).step(inputs.last()).0
        }
    }

    /// The actions that a whole history asks for, one for each input.
    pub open spec fn actions(self, inputs: Seq<JobInput>) -> Seq<JobAction>
        decreases inputs.len(),
    {
        if inputs.len() == 0 {
            Seq::empty()
        } else {
            self.actions(inputs.drop_last()).push(
                self.after(inputs.drop_last()).step(inputs.last()).1,
            )
        }
    }
}

/// The state machine behind one job manager. Its record is well-formed at
/// all times.
#[derive(Debug, Clone, Copy)]
pub struct JobRunner {
    record: JobModel,
}

impl View for JobRunner {
    type V = JobModel;

    closed spec fn view(&self) -> JobModel {
        self.record
    }
}

impl JobRunner {
    #[verifier::type_invariant]
    spec fn well_formed(self) -> bool {
        self.record.wf()
    }

    pub fn new() -> (runner: JobRunner)
        ensures
            runner@ == JobModel::idle(),
            runner@.wf(),
    {
        JobRunner {
            record: JobModel {
                state: JobState::Idle,
                stdout_open: false,
                stderr_open: false,
                exit: ExitWait::Pending,
                stop_requested: false,
            },
        }
    }

    /// The record as it stands.
    pub fn record(&self) -> (record: JobModel)
        ensures
            record == self@,
            record.wf(),
    {
        proof {
            use_type_invariant(self);
        }
        self.record
    }

    pub fn state(&self) -> (state: JobState)
        ensures
            state == self@.state,
            self@.wf(),
    {
        self.record().state
    }

    pub fn is_running(&self) -> (running: bool)
        ensures
            running == self@.is_running(),
            self@.wf(),
    {
        match self.record().state {
            JobState::Spawning | JobState::Running => true,
            _ => false,
        }
    }

    fn settled(record: JobModel) -> (settled: (JobModel, JobAction))
        ensures
            settled == record.settle(),
    {
        let exited = match record.exit {
            ExitWait::Exited(_) => true,
            ExitWait::Pending => false,
        };
        if !record.stdout_open && !record.stderr_open && exited {
            let outcome = if record.stop_requested {
                JobOutcome::Killed
            } else {
                match record.exit {
                    ExitWait::Exited(Some(code)) => if code == 0 {
                        JobOutcome::Succeeded
                    } else {
                        JobOutcome::Failed { code }
                    },
                    _ => JobOutcome::Failed { code: -1 },
                }
            };
            let state = match outcome {
                JobOutcome::Succeeded => JobState::Succeeded,
                JobOutcome::Failed { .. } => JobState::Failed,
                JobOutcome::Killed => JobState::Killed,
            };
            (JobModel { state, ..record }, JobAction::Finish(outcome))
        } else {
            (record, JobAction::Nothing)
        }
    }

    /// Asks for a new job.
    pub fn start(&mut self) -> (action: JobAction)
        ensures
            (final(self)@, action) == old(self)@.start(),
            old(self)@.wf(),
            final(self)@.wf(),
    {
        let record = self.record();
        match record.state {
            JobState::Spawning | JobState::Running => JobAction::Reject(JobError::AlreadyRunning),
            _ => {
                self.record = JobModel {
                    state: JobState::Spawning,
                    stdout_open: false,
                    stderr_open: false,
                    exit: ExitWait::Pending,
                    stop_requested: false,
                };
                JobAction::Spawn
            },
        }
    }

    /// Asks for the job in flight to be cancelled.
    pub fn stop(&mut self) -> (action: JobAction)
        ensures
            (final(self)@, action) == old(self)@.stop(),
            old(self)@.wf(),
            final(self)@.wf(),
    {
        let record = self.record();
        let running = match record.state {
            JobState::Running => true,
            _ => false,
        };
        let pending = match record.exit {
            ExitWait::Pending => true,
            ExitWait::Exited(_) => false,
        };
        if running && pending && !record.stop_requested {
            self.record = JobModel { stop_requested: true, ..record };
            JobAction::Kill
        } else {
            JobAction::Nothing
        }
    }

    /// Takes in what the host saw.
    pub fn observe(&mut self, signal: JobSignal) -> (action: JobAction)
        ensures
            (final(self)@, action) == old(self)@.observe(signal),
            old(self)@.wf(),
            final(self)@.wf(),
    {
        let record = self.record();
        let spawning = match record.state {
            JobState::Spawning => true,
            _ => false,
        };
        let running = match record.state {
            JobState::Running => true,
            _ => false,
        };
        let pending = match record.exit {
            ExitWait::Pending => true,
            ExitWait::Exited(_) => false,
        };
        let aborted = JobModel {
            state: JobState::Failed,
            stdout_open: false,
            stderr_open: false,
            ..record
        };
        let (next, action) = match signal {
            JobSignal::SpawnFailed => {
                if spawning {
                    (aborted, JobAction::Reject(JobError::SpawnFailed))
                } else {
                    (record, JobAction::Nothing)
                }
            },
            JobSignal::Spawned { stdout_captured, stderr_captured } => {
                if !spawning {
                    (record, JobAction::Nothing)
                } else if !stdout_captured {
                    (aborted, JobAction::Reject(JobError::CaptureFailed(StreamKind::Stdout)))
                } else if !stderr_captured {
                    (aborted, JobAction::Reject(JobError::CaptureFailed(StreamKind::Stderr)))
                } else {
                    (
                        JobModel {
                            state: JobState::Running,
                            stdout_open: true,
                            stderr_open: true,
                            ..record
                        },
                        JobAction::Nothing,
                    )
                }
            },
            JobSignal::StdoutClosed => {
                if running && record.stdout_open {
                    JobRunner::settled(JobModel { stdout_open: false, ..record })
                } else {
                    (record, JobAction::Nothing)
                }
            },
            JobSignal::StderrClosed => {
                if running && record.stderr_open {
                    JobRunner::settled(JobModel { stderr_open: false, ..record })
                } else {
                    (record, JobAction::Nothing)
                }
            },
            JobSignal::Exited { code } => {
                if running && pending {
                    JobRunner::settled(JobModel { exit: ExitWait::Exited(code), ..record })
                } else {
                    (record, JobAction::Nothing)
                }
            },
        };
        self.record = next;
        action
    }

    /// Takes one step of a history, request or signal.
    pub fn handle(&mut self, input: JobInput) -> (action: JobAction)
        ensures
            (final(self)@, action) == old(self)@.step(input),
            old(self)@.wf(),
            final(self)@.wf(),
    {
        match input {
            JobInput::Start => self.start(),
            JobInput::Stop => self.stop(),
            JobInput::Signal(signal) => self.observe(signal),
        }
    }
}

/// How many of `actions` deliver a result.
pub open spec fn finishes(actions: Seq<JobAction>) -> nat
    decreases actions.len(),
{
    if actions.len() == 0 {
        0
    } else {
        finishes(actions.drop_last()) + if actions.last() is Finish {
            1nat
        } else {
            0nat
        }
    }
}

/// How many of `actions` ask for a process to be created.
pub open spec fn spawns(actions: Seq<JobAction>) -> nat
    decreases actions.len(),
{
    if actions.len() == 0 {
        0
    } else {
        spawns(actions.drop_last()) + if actions.last() is Spawn {
            1nat
        } else {
            0nat
        }
    }
}

/// How many of `actions` give up a job that was asked for, before it ran.
pub open spec fn aborts(actions: Seq<JobAction>) -> nat
    decreases actions.len(),
{
    if actions.len() == 0 {
        0
    } else {
        aborts(actions.drop_last()) + if actions.last() is Reject && actions.last()
            != JobAction::Reject(JobError::AlreadyRunning) {
            1nat
        } else {
            0nat
        }
    }
}

/// The number of jobs in flight in `m`: one or none.
pub open spec fn in_flight(m: JobModel) -> nat {
    if m.is_running() {
        1
    } else {
        0
    }
}

/// A new runner is well-formed, and every step keeps it so.
pub proof fn lemma_step_keeps_wf(m: JobModel, input: JobInput)
    requires
        m.wf(),
    ensures
        JobModel::idle().wf(),
        m.step(input).0.wf(),
{
}

/// Every history keeps a well-formed runner well-formed.
pub proof fn lemma_history_keeps_wf(m: JobModel, inputs: Seq<JobInput>)
    requires
        m.wf(),
    ensures
        m.after(inputs).wf(),
    decreases inputs.len(),
{
    if inputs.len() > 0 {
        lemma_history_keeps_wf(m, inputs.drop_last());
        lemma_step_keeps_wf(m.after(inputs.drop_last()), inputs.last());
    }
}

/// A result is delivered only at the moment the job is over: both drains
/// have finished, the exit has been seen, and the state is the terminal one
/// that records the result. Before that moment the job was running.
pub proof fn lemma_finish_is_joined(m: JobModel, input: JobInput)
    requires
        m.step(input).1 is Finish,
    ensures
        m.state == JobState::Running,
        m.step(input).0.joined(),
        !m.step(input).0.is_running(),
        m.step(input).1 == JobAction::Finish(m.step(input).0.outcome()),
        m.step(input).0.state == m.step(input).0.outcome().state(),
{
}

/// Asking twice in a row: the second request is refused with
/// `AlreadyRunning` and leaves the first job as it was.
pub proof fn lemma_second_start_rejected(m: JobModel)
    requires
        !m.is_running(),
    ensures
        m.start().1 == JobAction::Spawn,
        m.start().0.is_running(),
        m.start().0.start() == (m.start().0, JobAction::Reject(JobError::AlreadyRunning)),
{
}

/// While a job is in flight, every request for another is refused and
/// changes nothing, whatever has been seen of the job so far.
pub proof fn lemma_start_rejected_while_running(m: JobModel)
    requires
        m.is_running(),
    ensures
        m.start() == (m, JobAction::Reject(JobError::AlreadyRunning)),
{
}

/// Stopping when no job is in flight does nothing: the state is the same,
/// no action is asked for, and the runner is not running before or after.
pub proof fn lemma_stop_when_not_running(m: JobModel)
    requires
        !m.is_running(),
    ensures
        m.stop() == (m, JobAction::Nothing),
        !m.stop().0.is_running(),
{
}

/// A second stop asks for no second kill.
pub proof fn lemma_stop_is_idempotent(m: JobModel)
    ensures
        m.stop().0.stop() == (m.stop().0, JobAction::Nothing),
{
}

/// The books balance over every history, with requests and signals in any
/// order: each job that was in flight at the start or was spawned since has
/// either delivered one result, or been given up before it ran, or is in
/// flight still. So no job delivers two results, however a stop races with
/// the exit.
pub proof fn lemma_one_result_per_job(m: JobModel, inputs: Seq<JobInput>)
    ensures
        m.actions(inputs).len() == inputs.len(),
        in_flight(m) + spawns(m.actions(inputs)) == finishes(m.actions(inputs)) + aborts(
            m.actions(inputs),
        ) + in_flight(m.after(inputs)),
    decreases inputs.len(),
{
    if inputs.len() > 0 {
        lemma_one_result_per_job(m, inputs.drop_last());
        assert(m.actions(inputs).drop_last() =~= m.actions(inputs.drop_last()));
    }
}

/// Whether `inputs` holds this signal.
pub open spec fn has_signal(inputs: Seq<JobInput>, signal: JobSignal) -> bool {
    exists|i: int| 0 <= i < inputs.len() && inputs[i] == JobInput::Signal(signal)
}

/// Whether `inputs` holds the signal of an exit, with whatever code.
pub open spec fn has_exit(inputs: Seq<JobInput>) -> bool {
    exists|i: int|
        0 <= i < inputs.len() && (#[trigger] inputs[i]) is Signal && inputs[i]->Signal_0 is Exited
}

/// Whether `inputs` holds no request for a new job.
pub open spec fn no_start(inputs: Seq<JobInput>) -> bool {
    forall|i: int| 0 <= i < inputs.len() ==> !((#[trigger] inputs[i]) is Start)
}

/// A running job whose two streams have closed and whose exit has been seen
/// is over and has delivered its result, exactly one, whatever else was
/// asked or seen meanwhile and in whatever order.
pub proof fn lemma_join_delivers_result(m: JobModel, inputs: Seq<JobInput>)
    requires
        m.wf(),
        m.state == JobState::Running,
        no_start(inputs),
        has_signal(inputs, JobSignal::StdoutClosed),
        has_signal(inputs, JobSignal::StderrClosed),
        has_exit(inputs),
    ensures
        !m.after(inputs).is_running(),
        m.after(inputs).joined(),
        finishes(m.actions(inputs)) == 1,
{
    lemma_running_history(m, inputs);
    lemma_one_result_per_job(m, inputs);
}

/// Along a history without a new start, a running job stays running until it
/// is over, is never given up, and keeps open only what has not been
/// reported closed.
proof fn lemma_running_history(m: JobModel, inputs: Seq<JobInput>)
    requires
        m.wf(),
        m.state == JobState::Running,
        no_start(inputs),
    ensures
        m.after(inputs).wf(),
        m.after(inputs).state != JobState::Idle,
        m.after(inputs).state != JobState::Spawning,
        m.after(inputs).state != JobState::Running ==> m.after(inputs).joined(),
        aborts(m.actions(inputs)) == 0,
        spawns(m.actions(inputs)) == 0,
        m.after(inputs).stdout_open ==> !has_signal(inputs, JobSignal::StdoutClosed),
        m.after(inputs).stderr_open ==> !has_signal(inputs, JobSignal::StderrClosed),
        m.after(inputs).exit is Pending ==> !has_exit(inputs),
    decreases inputs.len(),
{
    if inputs.len() > 0 {
        let before = inputs.drop_last();
        assert(no_start(before));
        lemma_running_history(m, before);
        let mid = m.after(before);
        let end = mid.step(inputs.last()).0;
        assert(!(inputs.last() is Start)) by {
            assert(inputs[inputs.len() - 1] == inputs.last());
        }
        assert(m.actions(inputs).drop_last() =~= m.actions(before));
        if end.stdout_open {
            assert forall|i: int| 0 <= i < inputs.len() implies inputs[i] != JobInput::Signal(
                JobSignal::StdoutClosed,
            ) by {
                if i < before.len() {
                    assert(before[i] == inputs[i]);
                }
            }
        }
        if end.stderr_open {
            assert forall|i: int| 0 <= i < inputs.len() implies inputs[i] != JobInput::Signal(
                JobSignal::StderrClosed,
            ) by {
                if i < before.len() {
                    assert(before[i] == inputs[i]);
                }
            }
        }
        if end.exit is Pending {
            assert forall|i: int| 0 <= i < inputs.len() implies !((#[trigger] inputs[i]) is Signal
                && inputs[i]->Signal_0 is Exited) by {
                if i < before.len() {
                    assert(before[i] == inputs[i]);
                }
            }
        }
    }
}

} // verus!
