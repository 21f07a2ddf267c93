//! The monitor loop as a state machine.
//!
//! A monitor reads lines from a long-running process while it listens for
//! control signals. Waiting for either is left to the caller: the caller
//! reports each thing that happened as a [`LoopEvent`], and the machine
//! answers with the [`LoopAction`] to take. When the machine has stopped,
//! the caller ends the process and asks for the loop's result.

use vstd::prelude::*;

use crate::commands::monitor::ControlMessage;
use crate::executor::{exit_failure, exit_failure_text, exit_succeeded};
use crate::types::error::BjigError;

verus! {

/// Why a monitor loop ended.
#[derive(Debug)]
pub enum ExitCause {
    /// Somebody asked for it: a `Stop` signal, a callback that said stop,
    /// an elapsed deadline, or a control queue with no sender left.
    Requested,
    /// The process closed its output.
    EndOfStream,
    /// Reading the process's output failed.
    ReadFailed(std::io::Error),
    /// The callback returned an error.
    CallbackFailed(BjigError),
}

/// Where a monitor loop stands.
#[derive(Debug)]
pub enum MonitorState {
    /// Lines are handed to the callback as they arrive.
    Running,
    /// Lines are read and thrown away.
    Paused,
    /// The loop has ended; nothing is read or delivered any more.
    Stopped(ExitCause),
}

/// Something that happened while the loop was waiting.
#[derive(Debug)]
pub enum LoopEvent {
    /// The process wrote a line.
    Line(String),
    /// The process closed its output.
    EndOfStream,
    /// Reading the process's output failed.
    ReadFailed(std::io::Error),
    /// A control signal arrived.
    Control(ControlMessage),
    /// Every sender of control signals is gone.
    ChannelClosed,
    /// The time to live is over.
    DeadlineElapsed,
    /// The callback returned from a delivered line: `Ok(true)` to go on,
    /// `Ok(false)` to stop.
    CallbackReturned(Result<bool, BjigError>),
}

/// What the caller does next.
#[derive(Debug)]
pub enum LoopAction {
    /// Hand this line to the callback, then report what it returned.
    Deliver(String),
    /// A line was dropped; wait for the next event.
    Discard,
    /// Wait for the next event.
    Continue,
    /// Leave the loop: end the process if it is still alive and wait for
    /// its exit.
    Shutdown,
}

impl LoopEvent {
    /// The event that a read of the process's output stands for: a line,
    /// the end of the output where there is none left, or a failed read.
    pub fn from_read(read: Result<Option<String>, std::io::Error>) -> (event: LoopEvent)
        ensures
            event == match read {
                Ok(Some(line)) => LoopEvent::Line(line),
                Ok(None) => LoopEvent::EndOfStream,
                Err(error) => LoopEvent::ReadFailed(error),
            },
    {
        match read {
            Ok(Some(line)) => LoopEvent::Line(line),
            Ok(None) => LoopEvent::EndOfStream,
            Err(error) => LoopEvent::ReadFailed(error),
        }
    }

    /// The event that a receive on the control queue stands for: the signal
    /// that arrived, or the loss of every sender where none did.
    pub fn from_signal(received: Option<ControlMessage>) -> (event: LoopEvent)
        ensures
            event == match received {
                Some(message) => LoopEvent::Control(message),
                None => LoopEvent::ChannelClosed,
            },
    {
        match received {
            Some(message) => LoopEvent::Control(message),
            None => LoopEvent::ChannelClosed,
        }
    }

    /// The event that a receive on a stop-only queue stands for: whatever
    /// arrives there means `Stop`.
    pub fn from_stopper(received: Option<()>) -> (event: LoopEvent)
        ensures
            event == match received {
                Some(_) => LoopEvent::Control(ControlMessage::Stop),
                None => LoopEvent::ChannelClosed,
            },
    {
        match received {
            Some(_) => LoopEvent::Control(ControlMessage::Stop),
            None => LoopEvent::ChannelClosed,
        }
    }
}

impl MonitorState {
    /// The state that follows `self` when `event` happens.
    pub open spec fn after(self, event: LoopEvent) -> MonitorState {
        match self {
            MonitorState::Stopped(_) => self,
            _ => match event {
                LoopEvent::Line(_) => self,
                LoopEvent::EndOfStream => MonitorState::Stopped(ExitCause::EndOfStream),
                LoopEvent::ReadFailed(error) => MonitorState::Stopped(ExitCause::ReadFailed(error)),
                LoopEvent::Control(ControlMessage::Stop) => MonitorState::Stopped(
                    ExitCause::Requested,
                ),
                LoopEvent::Control(ControlMessage::Pause) => MonitorState::Paused,
                LoopEvent::Control(ControlMessage::Resume) => MonitorState::Running,
                LoopEvent::ChannelClosed => MonitorState::Stopped(ExitCause::Requested),
                LoopEvent::DeadlineElapsed => MonitorState::Stopped(ExitCause::Requested),
                LoopEvent::CallbackReturned(Ok(true)) => self,
                LoopEvent::CallbackReturned(Ok(false)) => MonitorState::Stopped(
                    ExitCause::Requested,
                ),
                LoopEvent::CallbackReturned(Err(error)) => MonitorState::Stopped(
                    ExitCause::CallbackFailed(error),
                ),
            },
        }
    }

    /// The action that answers `event` in state `self`: a line is delivered
    /// only while running, dropped while paused, and every event that ends
    /// the loop, or finds it ended, is answered with `Shutdown`.
    pub open spec fn reaction(self, event: LoopEvent) -> LoopAction {
        match self.after(event) {
            MonitorState::Stopped(_) => LoopAction::Shutdown,
            MonitorState::Running => match event {
                LoopEvent::Line(line) => LoopAction::Deliver(line),
                _ => LoopAction::Continue,
            },
            MonitorState::Paused => match event {
                LoopEvent::Line(_) => LoopAction::Discard,
                _ => LoopAction::Continue,
            },
        }
    }

    /// Whether `outcome` is the result of a loop that ended in state `self`
    /// and whose process then exited as `exit` says, having written `stderr`
    /// to standard error. A loop that is not stopped has no result.
    ///
    /// The exit status counts only when the process ended on its own.
    pub open spec fn concludes_with(
        self,
        exit: Result<Option<i32>, std::io::Error>,
        stderr: Seq<char>,
        outcome: Result<(), BjigError>,
    ) -> bool {
        match self {
            MonitorState::Stopped(ExitCause::Requested) => outcome == Ok::<(), BjigError>(()),
            MonitorState::Stopped(ExitCause::CallbackFailed(error)) => outcome == Err::<
                (),
                BjigError,
            >(error),
            MonitorState::Stopped(ExitCause::ReadFailed(error)) => outcome == Err::<(), BjigError>(
                BjigError::IoError(error),
            ),
            MonitorState::Stopped(ExitCause::EndOfStream) => match exit {
                Ok(code) => if exit_succeeded(code) {
                    outcome == Ok::<(), BjigError>(())
                } else {
                    outcome matches Err(BjigError::CommandFailed(message)) && message@
                        == exit_failure_text(code, stderr)
                },
                Err(error) => outcome == Err::<(), BjigError>(BjigError::IoError(error)),
            },
            _ => false,
        }
    }

    /// A loop that has just been started.
    pub fn new() -> (state: MonitorState)
        ensures
            state == MonitorState::Running,
    {
        MonitorState::Running
    }

    /// Whether lines are being dropped.
    pub fn is_paused(&self) -> (paused: bool)
        ensures
            paused == (*self is Paused),
    {
        match self {
            MonitorState::Paused => true,
            _ => false,
        }
    }

    /// Whether the loop has ended.
    pub fn is_stopped(&self) -> (stopped: bool)
        ensures
            stopped == (*self is Stopped),
    {
        match self {
            MonitorState::Stopped(_) => true,
            _ => false,
        }
    }

    /// Whether the process's exit status and standard error decide the
    /// loop's result: only when the process ended on its own.
    pub fn inspects_exit(&self) -> (inspects: bool)
        ensures
            inspects == (*self == MonitorState::Stopped(ExitCause::EndOfStream)),
    {
        match self {
            MonitorState::Stopped(ExitCause::EndOfStream) => true,
            _ => false,
        }
    }

    /// Takes one event and says what to do next.
    pub fn on_event(&mut self, event: LoopEvent) -> (action: LoopAction)
        ensures
            *final(self) == old(self).after(event),
            action == old(self).reaction(event),
    {
        if self.is_stopped() {
            return LoopAction::Shutdown;
        }
        let paused = self.is_paused();
        match event {
            LoopEvent::Line(line) => {
                if paused {
                    LoopAction::Discard
                } else {
                    LoopAction::Deliver(line)
                }
            },
            LoopEvent::EndOfStream => {
                *self = MonitorState::Stopped(ExitCause::EndOfStream);
                LoopAction::Shutdown
            },
            LoopEvent::ReadFailed(error) => {
                *self = MonitorState::Stopped(ExitCause::ReadFailed(error));
                LoopAction::Shutdown
            },
            LoopEvent::Control(ControlMessage::Stop) => {
                *self = MonitorState::Stopped(ExitCause::Requested);
                LoopAction::Shutdown
            },
            LoopEvent::Control(ControlMessage::Pause) => {
                *self = MonitorState::Paused;
                LoopAction::Continue
            },
            LoopEvent::Control(ControlMessage::Resume) => {
                *self = MonitorState::Running;
                LoopAction::Continue
            },
            LoopEvent::ChannelClosed => {
                *self = MonitorState::Stopped(ExitCause::Requested);
                LoopAction::Shutdown
            },
            LoopEvent::DeadlineElapsed => {
                *self = MonitorState::Stopped(ExitCause::Requested);
                LoopAction::Shutdown
            },
            LoopEvent::CallbackReturned(Ok(proceed)) => {
                if proceed {
                    LoopAction::Continue
                } else {
                    *self = MonitorState::Stopped(ExitCause::Requested);
                    LoopAction::Shutdown
                }
            },
            LoopEvent::CallbackReturned(Err(error)) => {
                *self = MonitorState::Stopped(ExitCause::CallbackFailed(error));
                LoopAction::Shutdown
            },
        }
    }

    /// The result of a loop that has ended, once its process has exited.
    pub fn finish(self, exit: Result<Option<i32>, std::io::Error>, stderr: &str) -> (outcome:
        Result<(), BjigError>)
        requires
            self is Stopped,
        ensures
            self.concludes_with(exit, stderr@, outcome),
    {
        match self {
            MonitorState::Stopped(ExitCause::Requested) => Ok(()),
            MonitorState::Stopped(ExitCause::CallbackFailed(error)) => Err(error),
            MonitorState::Stopped(ExitCause::ReadFailed(error)) => Err(BjigError::IoError(error)),
            MonitorState::Stopped(ExitCause::EndOfStream) => match exit {
                Ok(code) => {
                    let succeeded = match code {
                        Some(value) => value == 0,
                        None => false,
                    };
                    if succeeded {
                        Ok(())
                    } else {
                        Err(exit_failure(code, stderr))
                    }
                },
                Err(error) => Err(BjigError::IoError(error)),
            },
            _ => Ok(()),
        }
    }
}

} // verus!
