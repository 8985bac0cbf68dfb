//! The inference manager: it turns a configuration into the command line of
//! the inference script and follows the one job it allows at a time.

use vstd::prelude::*;
use crate::command::{push_arg, push_flag, Invocation, InvocationView};
use crate::job::{
    ExitWait,
    JobAction,
    JobError,
    JobModel,
    JobOutcome,
    JobRunner,
    JobSignal,
    JobState,
};
use crate::model::{InferenceConfig, InferenceConfigView, InferenceResult, InferenceResultView};
use crate::result::{
    error_message,
    error_message_of,
    failure_message,
    is_success,
    notice_of,
    started_view,
    succeeded,
    JobNotice,
};

verus! {

/// The arguments of the inference script: the script, then one flag for
/// each field, in this order.
pub open spec fn inference_args(config: InferenceConfigView) -> Seq<Seq<char>> {
    seq![
        "inference.py"@,
        "--model_type"@,
        config.model_type.key_text(),
        "--config_path"@,
        config.config_path,
        "--start_check_point"@,
        config.start_checkpoint,
        "--input_folder"@,
        config.input_folder,
        "--store_dir"@,
        config.store_dir,
    ]
}

/// The command that starts an inference run.
pub open spec fn inference_invocation(config: InferenceConfigView) -> InvocationView {
    InvocationView { program: "python"@, args: inference_args(config) }
}

/// Builds the command that starts an inference run with `config`.
pub fn inference_command(config: &InferenceConfig) -> (command: Invocation)
    ensures
        command@ == inference_invocation(config@),
{
    let mut args: Vec<String> = Vec::new();
    push_arg(&mut args, "inference.py");
    push_flag(&mut args, "--model_type", config.model_type.key());
    push_flag(&mut args, "--config_path", config.config_path.as_str());
    push_flag(&mut args, "--start_check_point", config.start_checkpoint.as_str());
    push_flag(&mut args, "--input_folder", config.input_folder.as_str());
    push_flag(&mut args, "--store_dir", config.store_dir.as_str());
    assert(args.deep_view() =~= inference_args(config@));
    Invocation { program: "python".to_owned(), args }
}

/// Follows the one inference job that may be in flight.
pub struct InferenceManager {
    runner: JobRunner,
    input_folder: String,
    store_dir: String,
}

/// The mathematical state of an `InferenceManager`: the job, and the paths
/// of the configuration that the job was last started with.
pub struct InferenceManagerView {
    pub job: JobModel,
    pub input_folder: Seq<char>,
    pub store_dir: Seq<char>,
}

impl View for InferenceManager {
    type V = InferenceManagerView;

    closed spec fn view(&self) -> InferenceManagerView {
        InferenceManagerView {
            job: self.runner@,
            input_folder: self.input_folder@,
            store_dir: self.store_dir@,
        }
    }
}

impl InferenceManagerView {
    pub open spec fn idle() -> InferenceManagerView {
        InferenceManagerView {
            job: JobModel::idle(),
            input_folder: Seq::empty(),
            store_dir: Seq::empty(),
        }
    }

    pub open spec fn is_running(self) -> bool {
        self.job.is_running()
    }

    /// A start request: refused while a job is in flight, and then nothing
    /// changes; else the job is spawning, the paths are those of `config`,
    /// and the answer is the command to spawn.
    pub open spec fn start(self, config: InferenceConfigView) -> (
        InferenceManagerView,
        Result<InvocationView, JobError>,
    ) {
        if self.is_running() {
            (self, Err(JobError::AlreadyRunning))
        } else {
            (
                InferenceManagerView {
                    job: self.job.start().0,
                    input_folder: config.input_folder,
                    store_dir: config.store_dir,
                },
                Ok(inference_invocation(config)),
            )
        }
    }

    /// A stop request: the job decides, the paths stay.
    pub open spec fn stop(self) -> (InferenceManagerView, JobAction) {
        (InferenceManagerView { job: self.job.stop().0, ..self }, self.job.stop().1)
    }

    /// The record of the job, should it end with `outcome`.
    pub open spec fn result(self, outcome: JobOutcome) -> InferenceResultView {
        InferenceResultView {
            input_file: self.input_folder,
            output_dir: self.store_dir,
            duration: None,
            success: is_success(outcome),
            error_message: error_message_of(outcome),
        }
    }

    /// A signal from the host: the job decides, the paths stay, and where
    /// the job ends its record is handed out.
    pub open spec fn notify(self, signal: JobSignal) -> (
        InferenceManagerView,
        JobNotice<InferenceResultView>,
    ) {
        let (job, action) = self.job.observe(signal);
        (InferenceManagerView { job, ..self }, notice_of(action, self.result(job.outcome())))
    }
}

impl InferenceManager {
    pub fn new() -> (manager: InferenceManager)
        ensures
            manager@ == InferenceManagerView::idle(),
            !manager@.is_running(),
            manager@.job.wf(),
    {
        InferenceManager {
            runner: JobRunner::new(),
            input_folder: String::new(),
            store_dir: String::new(),
        }
    }

    /// Asks for an inference run with `config`. On `Ok` the host spawns the
    /// command and reports `Spawned` or `SpawnFailed` to `notify`; the
    /// result of the run comes from there.
    pub fn run_inference(&mut self, config: &InferenceConfig) -> (started: Result<
        Invocation,
        JobError,
    >)
        ensures
            (final(self)@, started_view(started)) == old(self)@.start(config@),
            started is Err <==> old(self)@.is_running(),
            final(self)@.job.wf(),
    {
        match self.runner.start() {
            JobAction::Spawn => {
                self.input_folder = config.input_folder.clone();
                self.store_dir = config.store_dir.clone();
                Ok(inference_command(config))
            },
            _ => Err(JobError::AlreadyRunning),
        }
    }

    /// Asks for the inference run to be cancelled. On `Kill` the host sends
    /// the termination signal and goes on reporting to `notify`; the result
    /// comes from there.
    pub fn stop_inference(&mut self) -> (action: JobAction)
        ensures
            (final(self)@, action) == old(self)@.stop(),
            action == JobAction::Kill || action == JobAction::Nothing,
            !old(self)@.is_running() ==> final(self)@ == old(self)@ && action
                == JobAction::Nothing,
            final(self)@.job.wf(),
    {
        self.runner.stop()
    }

    pub fn is_running(&self) -> (running: bool)
        ensures
            running == self@.is_running(),
            self@.job.wf(),
    {
        self.runner.is_running()
    }

    pub fn state(&self) -> (state: JobState)
        ensures
            state == self@.job.state,
            self@.job.wf(),
    {
        self.runner.state()
    }

    /// Takes in what the host saw of the child process.
    pub fn notify(&mut self, signal: JobSignal) -> (notice: JobNotice<InferenceResult>)
        ensures
            (final(self)@, notice@) == old(self)@.notify(signal),
            final(self)@.job.wf(),
    {
        match self.runner.observe(signal) {
            JobAction::Finish(outcome) => {
                JobNotice::Finished(
                    InferenceResult {
                        input_file: self.input_folder.clone(),
                        output_dir: self.store_dir.clone(),
                        duration: None,
                        success: succeeded(outcome),
                        error_message: error_message(outcome),
                    },
                )
            },
            JobAction::Reject(error) => JobNotice::Rejected(error),
            _ => JobNotice::Nothing,
        }
    }
}

impl InferenceManagerView {
    /// Two start requests in a row: the first is answered with its command,
    /// the second is refused with `AlreadyRunning`, and the first job is
    /// what it was before the second request.
    pub proof fn lemma_second_start_rejected(self, first: InferenceConfigView, second: InferenceConfigView)
        requires
            !self.is_running(),
        ensures
            self.start(first).1 == Ok::<InvocationView, JobError>(inference_invocation(first)),
            self.start(first).0.is_running(),
            self.start(first).0.start(second) == (
                self.start(first).0,
                Err::<InvocationView, JobError>(JobError::AlreadyRunning),
            ),
    {
    }

    /// A stop request with no job in flight succeeds and changes nothing:
    /// the manager is not running before, and not after.
    pub proof fn lemma_stop_when_idle(self)
        requires
            !self.is_running(),
        ensures
            self.stop() == (self, JobAction::Nothing),
            !self.stop().0.is_running(),
    {
    }

    /// What the one result of a job says. It comes when the job is over and
    /// not before. It carries the paths the job was started with. It reports
    /// success exactly for exit code 0 with no stop honoured. For another
    /// exit code it carries the message with that code, for a missing code
    /// the message with -1, and for a job that was stopped no message.
    pub proof fn lemma_result_reports_exit(self, signal: JobSignal)
        requires
            self.notify(signal).1 is Finished,
        ensures
            ({
                let job = self.notify(signal).0.job;
                let result = self.notify(signal).1->Finished_0;
                &&& self.job.state == JobState::Running
                &&& job.joined()
                &&& !job.is_running()
                &&& job.exit is Exited
                &&& result.success <==> !job.stop_requested && job.exit == ExitWait::Exited(
                    Some(0i32),
                )
                &&& result.success <==> job.state == JobState::Succeeded
                &&& job.stop_requested ==> result.error_message is None && job.state
                    == JobState::Killed
                &&& !job.stop_requested ==> match job.exit->Exited_0 {
                    Some(code) => code != 0 ==> result.error_message == Some(
                        failure_message(code as int),
                    ),
                    None => result.error_message == Some(failure_message(-1)),
                }
                &&& result.input_file == self.input_folder
                &&& result.output_dir == self.store_dir
            }),
    {
    }
}

} // verus!
