//! The training manager: it turns a configuration into the command line of
//! the training script and follows the one job it allows at a time.

use vstd::prelude::*;
use crate::command::{
    comma_joined,
    decimal_string,
    join_ids,
    optional_flag,
    push_arg,
    push_flag,
    push_repeated_flag,
    repeated_flag,
    Invocation,
    InvocationView,
};
use crate::job::{
    ExitWait,
    JobAction,
    JobError,
    JobModel,
    JobOutcome,
    JobRunner,
    JobSignal,
    JobState,
};
use crate::model::{TrainingConfig, TrainingConfigView, TrainingResult, TrainingResultView};
use crate::result::{
    error_message,
    error_message_of,
    failure_message,
    is_success,
    notice_of,
    started_view,
    succeeded,
    JobNotice,
};
use crate::text::decimal;

verus! {

/// The numeral of the worker count, where one is set.
pub open spec fn workers_text(workers: Option<usize>) -> Option<Seq<char>> {
    match workers {
        Some(n) => Some(decimal(n as nat)),
        None => None,
    }
}

/// The comma-joined device list, where one is set.
pub open spec fn devices_text(devices: Option<Seq<usize>>) -> Option<Seq<char>> {
    match devices {
        Some(ids) => Some(comma_joined(ids)),
        None => None,
    }
}

/// The arguments of the training script: the script, the three mandatory
/// flags, then each optional or repeated flag, in this order and only where
/// its field is set.
pub open spec fn training_args(config: TrainingConfigView) -> Seq<Seq<char>> {
    seq![
        "train.py"@,
        "--model_type"@,
        config.model_type.key_text(),
        "--config_path"@,
        config.config_path,
        "--results_path"@,
        config.results_path,
    ] + optional_flag("--start_check_point"@, config.start_checkpoint) + repeated_flag(
        "--data_path"@,
        config.data_paths,
    ) + optional_flag("--valid_path"@, config.valid_path) + optional_flag(
        "--num_workers"@,
        workers_text(config.num_workers),
    ) + optional_flag("--device_ids"@, devices_text(config.device_ids))
}

/// The command that starts a training run.
pub open spec fn training_invocation(config: TrainingConfigView) -> InvocationView {
    InvocationView { program: "python"@, args: training_args(config) }
}

/// Builds the command that starts a training run with `config`.
pub fn training_command(config: &TrainingConfig) -> (command: Invocation)
    ensures
        command@ == training_invocation(config@),
{
    let mut args: Vec<String> = Vec::new();
    push_arg(&mut args, "train.py");
    push_flag(&mut args, "--model_type", config.model_type.key());
    push_flag(&mut args, "--config_path", config.config_path.as_str());
    push_flag(&mut args, "--results_path", config.results_path.as_str());
    let ghost fixed = args.deep_view();
    assert(fixed =~= seq![
        "train.py"@,
        "--model_type"@,
        config@.model_type.key_text(),
        "--config_path"@,
        config@.config_path,
        "--results_path"@,
        config@.results_path,
    ]);
    match &config.start_checkpoint {
        Some(checkpoint) => {
            push_flag(&mut args, "--start_check_point", checkpoint.as_str());
        },
        None => {},
    }
    let ghost with_checkpoint = args.deep_view();
    assert(with_checkpoint =~= fixed + optional_flag(
        "--start_check_point"@,
        config@.start_checkpoint,
    ));
    push_repeated_flag(&mut args, "--data_path", &config.data_paths);
    match &config.valid_path {
        Some(valid_path) => {
            push_flag(&mut args, "--valid_path", valid_path.as_str());
        },
        None => {},
    }
    let ghost with_valid = args.deep_view();
    assert(with_valid =~= with_checkpoint + repeated_flag("--data_path"@, config@.data_paths)
        + optional_flag("--valid_path"@, config@.valid_path));
    match config.num_workers {
        Some(workers) => {
            let text = decimal_string(workers);
            push_flag(&mut args, "--num_workers", text.as_str());
        },
        None => {},
    }
    let ghost with_workers = args.deep_view();
    assert(with_workers =~= with_valid + optional_flag(
        "--num_workers"@,
        workers_text(config@.num_workers),
    ));
    match &config.device_ids {
        Some(ids) => {
            let text = join_ids(ids);
            assert(ids.deep_view() =~= ids@);
            push_flag(&mut args, "--device_ids", text.as_str());
        },
        None => {},
    }
    assert(args.deep_view() =~= with_workers + optional_flag(
        "--device_ids"@,
        devices_text(config@.device_ids),
    ));
    Invocation { program: "python".to_owned(), args }
}

/// Follows the one training job that may be in flight.
pub struct TrainingManager {
    runner: JobRunner,
    data_paths: Vec<String>,
    results_path: String,
}

/// The mathematical state of a `TrainingManager`: the job, and the paths of
/// the configuration that the job was last started with.
pub struct TrainingManagerView {
    pub job: JobModel,
    pub data_paths: Seq<Seq<char>>,
    pub results_path: Seq<char>,
}

impl View for TrainingManager {
    type V = TrainingManagerView;

    closed spec fn view(&self) -> TrainingManagerView {
        TrainingManagerView {
            job: self.runner@,
            data_paths: self.data_paths.deep_view(),
            results_path: self.results_path@,
        }
    }
}

impl TrainingManagerView {
    pub open spec fn idle() -> TrainingManagerView {
        TrainingManagerView {
            job: JobModel::idle(),
            data_paths: Seq::empty(),
            results_path: Seq::empty(),
        }
    }

    pub open spec fn is_running(self) -> bool {
        self.job.is_running()
    }

    /// A start request: refused while a job is in flight, and then nothing
    /// changes; else the job is spawning, the paths are those of `config`,
    /// and the answer is the command to spawn.
    pub open spec fn start(self, config: TrainingConfigView) -> (
        TrainingManagerView,
        Result<InvocationView, JobError>,
    ) {
        if self.is_running() {
            (self, Err(JobError::AlreadyRunning))
        } else {
            (
                TrainingManagerView {
                    job: self.job.start().0,
                    data_paths: config.data_paths,
                    results_path: config.results_path,
                },
                Ok(training_invocation(config)),
            )
        }
    }

    /// A stop request: the job decides, the paths stay.
    pub open spec fn stop(self) -> (TrainingManagerView, JobAction) {
        (TrainingManagerView { job: self.job.stop().0, ..self }, self.job.stop().1)
    }

    /// The record of the job, should it end with `outcome`.
    pub open spec fn result(self, outcome: JobOutcome) -> TrainingResultView {
        TrainingResultView {
            data_paths: self.data_paths,
            results_path: self.results_path,
            duration: None,
            success: is_success(outcome),
            error_message: error_message_of(outcome),
        }
    }

    /// A signal from the host: the job decides, the paths stay, and where
    /// the job ends its record is handed out.
    pub open spec fn notify(self, signal: JobSignal) -> (
        TrainingManagerView,
        JobNotice<TrainingResultView>,
    ) {
        let (job, action) = self.job.observe(signal);
        (TrainingManagerView { job, ..self }, notice_of(action, self.result(job.outcome())))
    }
}

impl TrainingManager {
    pub fn new() -> (manager: TrainingManager)
        ensures
            manager@ == TrainingManagerView::idle(),
            !manager@.is_running(),
            manager@.job.wf(),
    {
        let manager = TrainingManager {
            runner: JobRunner::new(),
            data_paths: Vec::new(),
            results_path: String::new(),
        };
        assert(manager.data_paths.deep_view() =~= Seq::empty());
        manager
    }

    /// Asks for a training run with `config`. On `Ok` the host spawns the
    /// command and reports `Spawned` or `SpawnFailed` to `notify`.
    pub fn start_training(&mut self, config: &TrainingConfig) -> (started: Result<
        Invocation,
        JobError,
    >)
        ensures
            (final(self)@, started_view(started)) == old(self)@.start(config@),
            started is Err <==> old(self)@.is_running(),
            final(self)@.job.wf(),
    {
        match self.runner.start() {
            JobAction::Spawn => {
                self.data_paths = config.data_paths.clone();
                self.results_path = config.results_path.clone();
                assert(self.data_paths.deep_view() =~= config.data_paths.deep_view());
                Ok(training_command(config))
            },
            _ => Err(JobError::AlreadyRunning),
        }
    }

    /// Asks for the training run to be cancelled. On `Kill` the host sends
    /// the termination signal and goes on reporting to `notify`; the result
    /// comes from there.
    pub fn stop_training(&mut self) -> (action: JobAction)
        ensures
            (final(self)@, action) == old(self)@.stop(),
            action == JobAction::Kill || action == JobAction::Nothing,
            !old(self)@.is_running() ==> final(self)@ == old(self)@ && action
                == JobAction::Nothing,
            final(self)@.job.wf(),
    {
        self.runner.stop()
    }

    pub fn is_running(&self) -> (running: bool)
        ensures
            running == self@.is_running(),
            self@.job.wf(),
    {
        self.runner.is_running()
    }

    pub fn state(&self) -> (state: JobState)
        ensures
            state == self@.job.state,
            self@.job.wf(),
    {
        self.runner.state()
    }

    /// Takes in what the host saw of the child process.
    pub fn notify(&mut self, signal: JobSignal) -> (notice: JobNotice<TrainingResult>)
        ensures
            (final(self)@, notice@) == old(self)@.notify(signal),
            final(self)@.job.wf(),
    {
        match self.runner.observe(signal) {
            JobAction::Finish(outcome) => {
                let result = TrainingResult {
                    data_paths: self.data_paths.clone(),
                    results_path: self.results_path.clone(),
                    duration: None,
                    success: succeeded(outcome),
                    error_message: error_message(outcome),
                };
                assert(result.data_paths.deep_view() =~= self.data_paths.deep_view());
                JobNotice::Finished(result)
            },
            JobAction::Reject(error) => JobNotice::Rejected(error),
            _ => JobNotice::Nothing,
        }
    }
}

impl TrainingManagerView {
    /// Two start requests in a row: the first is answered with its command,
    /// the second is refused with `AlreadyRunning`, and the first job is
    /// what it was before the second request.
    pub proof fn lemma_second_start_rejected(self, first: TrainingConfigView, second: TrainingConfigView)
        requires
            !self.is_running(),
        ensures
            self.start(first).1 == Ok::<InvocationView, JobError>(training_invocation(first)),
            self.start(first).0.is_running(),
            self.start(first).0.start(second) == (
                self.start(first).0,
                Err::<InvocationView, JobError>(JobError::AlreadyRunning),
            ),
    {
    }

    /// A stop request with no job in flight succeeds and changes nothing:
    /// the manager is not running before, and not after.
    pub proof fn lemma_stop_when_idle(self)
        requires
            !self.is_running(),
        ensures
            self.stop() == (self, JobAction::Nothing),
            !self.stop().0.is_running(),
    {
    }

    /// What the one result of a job says. It comes when the job is over and
    /// not before. It carries the paths the job was started with. It reports
    /// success exactly for exit code 0 with no stop honoured. For another
    /// exit code it carries the message with that code, for a missing code
    /// the message with -1, and for a job that was stopped no message.
    pub proof fn lemma_result_reports_exit(self, signal: JobSignal)
        requires
            self.notify(signal).1 is Finished,
        ensures
            ({
                let job = self.notify(signal).0.job;
                let result = self.notify(signal).1->Finished_0;
                &&& self.job.state == JobState::Running
                &&& job.joined()
                &&& !job.is_running()
                &&& job.exit is Exited
                &&& result.success <==> !job.stop_requested && job.exit == ExitWait::Exited(
                    Some(0i32),
                )
                &&& result.success <==> job.state == JobState::Succeeded
                &&& job.stop_requested ==> result.error_message is None && job.state
                    == JobState::Killed
                &&& !job.stop_requested ==> match job.exit->Exited_0 {
                    Some(code) => code != 0 ==> result.error_message == Some(
                        failure_message(code as int),
                    ),
                    None => result.error_message == Some(failure_message(-1)),
                }
                &&& result.data_paths == self.data_paths
                &&& result.results_path == self.results_path
            }),
    {
    }
}

} // verus!
