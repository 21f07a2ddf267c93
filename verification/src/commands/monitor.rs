//! The monitor command: control signals and what the control surface
//! reports to its caller.

use vstd::prelude::*;
use vstd::string::*;

use crate::controller::BjigController;
use crate::env::{text_of, text_of_str, Environment};
use crate::executor::{str_texts, CommandExecutor};
use crate::text::{decimal_digits, decimal_string};
use crate::types::error::BjigError;

verus! {

/// How many control signals may wait in the queue between a handle and its
/// monitor loop.
pub const CONTROL_QUEUE_CAPACITY: usize = 10;

/// A signal sent from a handle to its monitor loop.
#[derive(Debug, Clone, Copy, PartialEq, Eq, Structural)]
pub enum ControlMessage {
    Stop,
    Pause,
    Resume,
}

/// `tokio::sync::mpsc::Sender`, the sending end of the control queue.
/// Nothing here looks inside; signals are put in through the wrappers
/// below and by the caller.
#[verifier::external_type_specification]
#[verifier::external_body]
#[verifier::reject_recursive_types(T)]
pub struct ExSender<T>(tokio::sync::mpsc::Sender<T>);

/// `tokio::task::JoinHandle`, the monitor's background task.
#[verifier::external_type_specification]
#[verifier::external_body]
#[verifier::reject_recursive_types(T)]
pub struct ExJoinHandle<T>(tokio::task::JoinHandle<T>);

/// `tokio::task::JoinError`, what joining a task gives when the task was
/// torn down.
#[verifier::external_type_specification]
#[verifier::external_body]
pub struct ExJoinError(tokio::task::JoinError);

/// Calls `Sender::try_send`, which never waits: it refuses the signal when
/// the queue is full or has lost its receiver. Whether it took the signal
/// depends on what else is going on, so nothing is claimed of the answer.
/// It does not panic.
#[verifier::external_body]
fn try_send_signal(
    queue: &tokio::sync::mpsc::Sender<ControlMessage>,
    message: ControlMessage,
) -> (enqueued: bool)
    opens_invariants none
    no_unwind
{
    queue.try_send(message).is_ok()
}

/// Calls `JoinHandle::is_finished`. The answer is a snapshot of a task
/// that runs on its own, so nothing is claimed of it.
#[verifier::external_body]
fn task_is_finished(task: &tokio::task::JoinHandle<Result<(), BjigError>>) -> (finished: bool) {
    task.is_finished()
}

/// Writes a `JoinError` as text through its `Display`. The text names the
/// task by a number that the runtime chose, so nothing is claimed of it.
#[verifier::external_body]
fn join_error_text(error: &tokio::task::JoinError) -> (text: String) {
    error.to_string()
}

/// Controls a monitor that runs in the background: it owns the sending end
/// of the control queue and the monitor's task.
///
/// Releasing a handle sends `Stop` without waiting, so a monitor is never
/// left running by a caller who forgot to stop it. What the monitor's task
/// returns is then lost.
pub struct MonitorHandle {
    control_tx: tokio::sync::mpsc::Sender<ControlMessage>,
    task_handle: tokio::task::JoinHandle<Result<(), BjigError>>,
}

impl MonitorHandle {
    /// The sending end of the control queue.
    pub closed spec fn queue(self) -> tokio::sync::mpsc::Sender<ControlMessage> {
        self.control_tx
    }

    /// The monitor's task.
    pub closed spec fn joined_task(self) -> tokio::task::JoinHandle<Result<(), BjigError>> {
        self.task_handle
    }

    /// A handle for the monitor that runs as `task_handle` and listens to
    /// the queue behind `control_tx`.
    pub fn new(
        control_tx: tokio::sync::mpsc::Sender<ControlMessage>,
        task_handle: tokio::task::JoinHandle<Result<(), BjigError>>,
    ) -> (handle: MonitorHandle)
        ensures
            handle.queue() == control_tx,
            handle.joined_task() == task_handle,
    {
        MonitorHandle { control_tx, task_handle }
    }

    /// Whether the monitor's task is still running, at the moment of the
    /// call.
    pub fn is_running(&self) -> (running: bool) {
        MonitorHandle::running_given(task_is_finished(&self.task_handle))
    }

    /// Whether a monitor is running, given whether its task has finished:
    /// it is running for as long as its task has not finished.
    pub fn running_given(task_finished: bool) -> (running: bool)
        ensures
            running == !task_finished,
    {
        !task_finished
    }

    /// The sending end of the control queue, for signals that are sent
    /// with waiting.
    pub fn control(&self) -> (queue: &tokio::sync::mpsc::Sender<ControlMessage>)
        ensures
            *queue == self.queue(),
    {
        &self.control_tx
    }

    /// The monitor's task, to wait for its end.
    pub fn task(&mut self) -> (task: &mut tokio::task::JoinHandle<Result<(), BjigError>>)
        ensures
            *task == old(self).joined_task(),
            final(self).joined_task() == *final(task),
            final(self).queue() == old(self).queue(),
    {
        &mut self.task_handle
    }
}

impl Drop for MonitorHandle {
    /// Sends `Stop` if the queue has room, and never waits or fails.
    fn drop(&mut self)
        opens_invariants none
        no_unwind
    {
        let _ = try_send_signal(&self.control_tx, ControlMessage::Stop);
    }
}

/// What sending `message` reports to the caller, given whether the queue
/// took it. A `Stop` that could not be queued is no error: the loop is
/// already gone. A lost `Pause` or `Resume` is reported.
pub fn send_outcome(message: ControlMessage, enqueued: bool) -> (outcome: Result<(), BjigError>)
    ensures
        enqueued || message == ControlMessage::Stop ==> outcome == Ok::<(), BjigError>(()),
        !enqueued && message == ControlMessage::Pause ==> (outcome matches Err(
            BjigError::CommandFailed(text),
        ) && text@ == "Failed to send pause signal"@),
        !enqueued && message == ControlMessage::Resume ==> (outcome matches Err(
            BjigError::CommandFailed(text),
        ) && text@ == "Failed to send resume signal"@),
{
    if enqueued {
        return Ok(());
    }
    match message {
        ControlMessage::Stop => Ok(()),
        ControlMessage::Pause => Err(
            BjigError::CommandFailed(String::from_str("Failed to send pause signal")),
        ),
        ControlMessage::Resume => Err(
            BjigError::CommandFailed(String::from_str("Failed to send resume signal")),
        ),
    }
}

/// The text of the error reported for a task that was torn down.
pub open spec fn abort_text(reason: Seq<char>) -> Seq<char> {
    "Monitor task panicked: "@ + reason
}

/// The failure reported for a monitor task that was torn down, where
/// `reason` says how.
pub fn task_failure(reason: &str) -> (error: BjigError)
    ensures
        error matches BjigError::CommandFailed(text) && text@ == abort_text(reason@),
{
    let mut text = String::from_str("Monitor task panicked: ");
    text.append(reason);
    BjigError::CommandFailed(text)
}

/// Whether `outcome` is a `CommandFailed` that reports a task torn down.
pub open spec fn is_task_failure(outcome: Result<(), BjigError>) -> bool {
    outcome matches Err(BjigError::CommandFailed(text)) && exists|reason: Seq<char>|
        text@ == abort_text(reason)
}

/// What stopping a monitor reports once its task has been joined: the
/// loop's own result, or for a task that was torn down a `CommandFailed`
/// of its own kind, so that the two can be told apart.
pub fn join_outcome(joined: Result<Result<(), BjigError>, tokio::task::JoinError>) -> (outcome:
    Result<(), BjigError>)
    ensures
        joined matches Ok(result) ==> outcome == result,
        joined is Err ==> is_task_failure(outcome),
{
    match joined {
        Ok(result) => result,
        Err(error) => {
            let reason = join_error_text(&error);
            Err(task_failure(reason.as_str()))
        },
    }
}

/// The words of the monitor command: its name, then `--ttl` and the time
/// to live in seconds where there is one.
pub open spec fn monitor_words(ttl_secs: Option<u64>) -> Seq<Seq<char>> {
    match ttl_secs {
        Some(ttl) => seq!["monitor"@, "--ttl"@, decimal_digits(ttl as nat)],
        None => seq!["monitor"@],
    }
}

/// The monitor command, for one controller.
#[derive(Debug)]
pub struct MonitorCommand<'a> {
    controller: &'a BjigController,
}

impl<'a> MonitorCommand<'a> {
    /// The controller whose monitor this is.
    pub closed spec fn controller(self) -> BjigController {
        *self.controller
    }

    /// The monitor command for `controller`.
    pub fn new(controller: &'a BjigController) -> (command: MonitorCommand<'a>)
        ensures
            command.controller() == *controller,
    {
        MonitorCommand { controller }
    }

    /// An executor with the controller's binary and defaults.
    pub fn executor(&self) -> (executor: CommandExecutor<'_>)
        ensures
            executor.bjig_path@ == self.controller().bjig_path@,
            text_of_str(executor.default_port) == text_of(self.controller().default_port),
            executor.default_baud == self.controller().default_baud,
    {
        self.controller.executor()
    }

    /// Arguments that start the tool as a monitor, for `ttl_secs` seconds
    /// or without limit.
    pub fn args(
        &self,
        ttl_secs: Option<u64>,
        port: Option<&str>,
        baud: Option<u32>,
        env: &Environment,
    ) -> (result: Result<Vec<String>, BjigError>)
        ensures
            self.controller().builds(
                monitor_words(ttl_secs),
                text_of_str(port),
                baud,
                *env,
                result,
            ),
    {
        match ttl_secs {
            Some(ttl) => {
                let number = decimal_string(ttl);
                let words = vec!["monitor", "--ttl", number.as_str()];
                assert(str_texts(words@) =~= monitor_words(ttl_secs));
                self.executor().build_args(words.as_slice(), port, baud, env)
            },
            None => {
                let words = vec!["monitor"];
                assert(str_texts(words@) =~= monitor_words(ttl_secs));
                self.executor().build_args(words.as_slice(), port, baud, env)
            },
        }
    }
}

} // verus!
