//! What a manager reports back to its host.

use vstd::prelude::*;
use crate::command::{Invocation, InvocationView};
use crate::job::{JobAction, JobError, JobOutcome};
use crate::text::{push_signed_decimal, signed_decimal};

verus! {

/// What a manager makes of a signal.
#[derive(Debug, Clone, PartialEq, Eq)]
pub enum JobNotice<R> {
    Nothing,
    /// The job never ran: this error goes to whoever started it.
    Rejected(JobError),
    /// The job is over: this is its one result.
    Finished(R),
}

/// The message of a job whose process ended with `code`.
pub open spec fn failure_message(code: int) -> Seq<char> {
    "Process exited with code: "@ + signed_decimal(code)
}

/// The message that a result carries: one for a failed job, none otherwise.
pub open spec fn error_message_of(outcome: JobOutcome) -> Option<Seq<char>> {
    match outcome {
        JobOutcome::Failed { code } => Some(failure_message(code as int)),
        _ => None,
    }
}

/// Whether the outcome counts as success.
pub open spec fn is_success(outcome: JobOutcome) -> bool {
    outcome is Succeeded
}

/// The message of a result with this outcome.
pub fn error_message(outcome: JobOutcome) -> (message: Option<String>)
    ensures
        message.deep_view() == error_message_of(outcome),
{
    match outcome {
        JobOutcome::Failed { code } => {
            let mut text = "Process exited with code: ".to_owned();
            push_signed_decimal(&mut text, code as i64);
            Some(text)
        },
        _ => None,
    }
}

/// Whether a result with this outcome reports success.
pub fn succeeded(outcome: JobOutcome) -> (success: bool)
    ensures
        success == is_success(outcome),
{
    match outcome {
        JobOutcome::Succeeded => true,
        _ => false,
    }
}

impl<R: View> View for JobNotice<R> {
    type V = JobNotice<R::V>;

    open spec fn view(&self) -> JobNotice<R::V> {
        match self {
            JobNotice::Nothing => JobNotice::Nothing,
            JobNotice::Rejected(error) => JobNotice::Rejected(*error),
            JobNotice::Finished(result) => JobNotice::Finished(result@),
        }
    }
}

/// The notice for an action of the runner, where `result` is the record of
/// the job should the action end it.
pub open spec fn notice_of<V>(action: JobAction, result: V) -> JobNotice<V> {
    match action {
        JobAction::Finish(_) => JobNotice::Finished(result),
        JobAction::Reject(error) => JobNotice::Rejected(error),
        _ => JobNotice::Nothing,
    }
}

/// The mathematical value of the answer to a start request.
pub open spec fn started_view(started: Result<Invocation, JobError>) -> Result<
    InvocationView,
    JobError,
> {
    match started {
        Ok(command) => Ok(command@),
        Err(error) => Err(error),
    }
}

} // verus!
