//! What holds of every run of the monitor loop.
//!
//! A run is the sequence of events that the loop saw, oldest first. The
//! functions here say where a run leaves the loop and which lines it handed
//! to the callback; the proofs state what follows for every run.

use vstd::prelude::*;

use crate::commands::monitor::ControlMessage;
use crate::stream::{ExitCause, LoopAction, LoopEvent, MonitorState};
use crate::types::error::BjigError;

verus! {

/// The state of a loop that started in `start` and saw `trace`.
pub open spec fn state_after(start: MonitorState, trace: Seq<LoopEvent>) -> MonitorState
    decreases trace.len(),
{
    if trace.len() == 0 {
        start
    } else {
        state_after(start, trace.drop_last()).after(trace.last())
    }
}

/// The lines that a loop started in `start` handed to the callback while it
/// saw `trace`, in the order in which it handed them over.
pub open spec fn delivered(start: MonitorState, trace: Seq<LoopEvent>) -> Seq<Seq<char>>
    decreases trace.len(),
{
    if trace.len() == 0 {
        Seq::empty()
    } else {
        let earlier = trace.drop_last();
        match state_after(start, earlier).reaction(trace.last()) {
            LoopAction::Deliver(line) => delivered(start, earlier).push(line@),
            _ => delivered(start, earlier),
        }
    }
}

/// Every line that arrived during `trace`, in arrival order.
pub open spec fn lines_of(trace: Seq<LoopEvent>) -> Seq<Seq<char>>
    decreases trace.len(),
{
    if trace.len() == 0 {
        Seq::empty()
    } else {
        match trace.last() {
            LoopEvent::Line(line) => lines_of(trace.drop_last()).push(line@),
            _ => lines_of(trace.drop_last()),
        }
    }
}

/// A stretch in which nothing but lines arrive and the callback, where it
/// is asked, says to go on.
pub open spec fn is_quiet(trace: Seq<LoopEvent>) -> bool {
    forall|i: int|
        0 <= i < trace.len() ==> #[trigger] trace[i] is Line || trace[i]
            == LoopEvent::CallbackReturned(Ok(true))
}

/// Whether `part` can be had from `whole` by leaving elements out.
pub open spec fn is_subsequence(part: Seq<Seq<char>>, whole: Seq<Seq<char>>) -> bool
    decreases whole.len(),
{
    if part.len() == 0 {
        true
    } else if whole.len() == 0 {
        false
    } else {
        (part.last() == whole.last() && is_subsequence(part.drop_last(), whole.drop_last()))
            || is_subsequence(part, whole.drop_last())
    }
}

/// Two results that a caller cannot tell apart: both succeed, or both fail
/// with the same error, where two command failures are the same if their
/// messages read the same.
pub open spec fn same_result(first: Result<(), BjigError>, second: Result<(), BjigError>) -> bool {
    match (first, second) {
        (Ok(_), Ok(_)) => true,
        (Err(BjigError::CommandFailed(a)), Err(BjigError::CommandFailed(b))) => a@ == b@,
        (Err(a), Err(b)) => a == b,
        _ => false,
    }
}

/// A run can be cut in two at any point: the second part goes on from where
/// the first left the loop, and what was delivered is what the first part
/// delivered, then what the second did.
pub proof fn lemma_run_in_two_parts(
    start: MonitorState,
    first: Seq<LoopEvent>,
    second: Seq<LoopEvent>,
)
    ensures
        state_after(start, first + second) == state_after(state_after(start, first), second),
        delivered(start, first + second) == delivered(start, first) + delivered(
            state_after(start, first),
            second,
        ),
    decreases second.len(),
{
    if second.len() == 0 {
        assert(first + second =~= first);
        assert(delivered(start, first) + Seq::<Seq<char>>::empty() =~= delivered(start, first));
    } else {
        assert((first + second).drop_last() =~= first + second.drop_last());
        assert((first + second).last() == second.last());
        lemma_run_in_two_parts(start, first, second.drop_last());
        let middle = state_after(start, first);
        match state_after(middle, second.drop_last()).reaction(second.last()) {
            LoopAction::Deliver(line) => {
                assert(delivered(start, first + second) =~= delivered(start, first) + delivered(
                    middle,
                    second,
                ));
            },
            _ => {},
        }
    }
}

/// A stopped loop stays as it is and delivers nothing, whatever happens.
pub proof fn law_stopped_is_final(start: MonitorState, trace: Seq<LoopEvent>)
    requires
        start is Stopped,
    ensures
        state_after(start, trace) == start,
        delivered(start, trace) == Seq::<Seq<char>>::empty(),
    decreases trace.len(),
{
    if trace.len() > 0 {
        law_stopped_is_final(start, trace.drop_last());
    }
}

/// Once a run has stopped the loop, nothing that comes later changes its
/// state or is delivered: no line is read and no callback is called after a
/// stop.
pub proof fn law_nothing_delivered_after_stop(
    start: MonitorState,
    before: Seq<LoopEvent>,
    later: Seq<LoopEvent>,
)
    requires
        state_after(start, before) is Stopped,
    ensures
        state_after(start, before + later) == state_after(start, before),
        delivered(start, before + later) == delivered(start, before),
{
    lemma_run_in_two_parts(start, before, later);
    law_stopped_is_final(state_after(start, before), later);
    assert(delivered(start, before) + Seq::<Seq<char>>::empty() =~= delivered(start, before));
}

/// A line is handed to the callback when it arrives or never: one more
/// event adds the line it carries if the loop is running, and nothing
/// otherwise. Lines that arrive while the loop is paused are not kept for
/// later.
pub proof fn law_delivery_is_immediate(
    start: MonitorState,
    trace: Seq<LoopEvent>,
    event: LoopEvent,
)
    ensures
        delivered(start, trace.push(event)) == if state_after(start, trace) is Running {
            match event {
                LoopEvent::Line(line) => delivered(start, trace).push(line@),
                _ => delivered(start, trace),
            }
        } else {
            delivered(start, trace)
        },
{
    assert(trace.push(event).drop_last() =~= trace);
    assert(trace.push(event).last() == event);
}

/// The delivered lines are lines that arrived, in the order in which they
/// arrived: delivery leaves lines out but never reorders or repeats them.
pub proof fn law_delivered_in_arrival_order(start: MonitorState, trace: Seq<LoopEvent>)
    ensures
        is_subsequence(delivered(start, trace), lines_of(trace)),
    decreases trace.len(),
{
    if trace.len() > 0 {
        let earlier = trace.drop_last();
        law_delivered_in_arrival_order(start, earlier);
        match state_after(start, earlier).reaction(trace.last()) {
            LoopAction::Deliver(line) => {
                assert(trace.last() == LoopEvent::Line(line));
                let part = delivered(start, trace);
                let whole = lines_of(trace);
                assert(part.drop_last() =~= delivered(start, earlier));
                assert(whole.drop_last() =~= lines_of(earlier));
                assert(part.last() == whole.last());
            },
            _ => {
                match trace.last() {
                    LoopEvent::Line(line) => {
                        let whole = lines_of(trace);
                        assert(whole.drop_last() =~= lines_of(earlier));
                        if delivered(start, trace).len() > 0 {
                            assert(is_subsequence(delivered(start, trace), whole.drop_last()));
                        }
                    },
                    _ => {},
                }
            },
        }
    }
}

/// While nobody pauses or stops it, a running loop delivers every line
/// that arrives, in arrival order, and keeps running.
pub proof fn law_running_delivers_every_line(trace: Seq<LoopEvent>)
    requires
        is_quiet(trace),
    ensures
        state_after(MonitorState::Running, trace) == MonitorState::Running,
        delivered(MonitorState::Running, trace) == lines_of(trace),
    decreases trace.len(),
{
    if trace.len() > 0 {
        let earlier = trace.drop_last();
        assert forall|i: int| 0 <= i < earlier.len() implies #[trigger] earlier[i] is Line
            || earlier[i] == LoopEvent::CallbackReturned(Ok(true)) by {
            assert(earlier[i] == trace[i]);
        }
        law_running_delivers_every_line(earlier);
        assert(trace[trace.len() - 1] is Line || trace[trace.len() - 1]
            == LoopEvent::CallbackReturned(Ok(true)));
    }
}

/// A paused loop delivers none of the lines that arrive, and stays paused
/// until it is told otherwise.
pub proof fn law_paused_drops_every_line(trace: Seq<LoopEvent>)
    requires
        is_quiet(trace),
    ensures
        state_after(MonitorState::Paused, trace) == MonitorState::Paused,
        delivered(MonitorState::Paused, trace) == Seq::<Seq<char>>::empty(),
    decreases trace.len(),
{
    if trace.len() > 0 {
        let earlier = trace.drop_last();
        assert forall|i: int| 0 <= i < earlier.len() implies #[trigger] earlier[i] is Line
            || earlier[i] == LoopEvent::CallbackReturned(Ok(true)) by {
            assert(earlier[i] == trace[i]);
        }
        law_paused_drops_every_line(earlier);
        assert(trace[trace.len() - 1] is Line || trace[trace.len() - 1]
            == LoopEvent::CallbackReturned(Ok(true)));
    }
}

/// After a `Resume`, every line that then arrives is delivered, in arrival
/// order, behind what was delivered before; lines dropped during the pause
/// do not come back. This holds wherever the run left the loop before the
/// `Resume`, as long as it had not stopped it.
pub proof fn law_resume_restores_delivery(
    start: MonitorState,
    before: Seq<LoopEvent>,
    later: Seq<LoopEvent>,
)
    requires
        !(state_after(start, before) is Stopped),
        is_quiet(later),
    ensures
        state_after(start, before.push(LoopEvent::Control(ControlMessage::Resume)) + later)
            == MonitorState::Running,
        delivered(start, before.push(LoopEvent::Control(ControlMessage::Resume)) + later)
            == delivered(start, before) + lines_of(later),
{
    let resume = LoopEvent::Control(ControlMessage::Resume);
    let resumed = before.push(resume);
    assert(resumed.drop_last() =~= before);
    assert(resumed.last() == resume);
    assert(state_after(start, resumed) == MonitorState::Running);
    assert(delivered(start, resumed) == delivered(start, before));
    lemma_run_in_two_parts(start, resumed, later);
    law_running_delivers_every_line(later);
}

/// In a run without a pause, every line that arrives before the `Stop` is
/// delivered, in arrival order, and no line that arrives after it.
pub proof fn law_lines_before_stop_all_delivered(before: Seq<LoopEvent>, later: Seq<LoopEvent>)
    requires
        is_quiet(before),
    ensures
        delivered(
            MonitorState::Running,
            before.push(LoopEvent::Control(ControlMessage::Stop)) + later,
        ) == lines_of(before),
        state_after(
            MonitorState::Running,
            before.push(LoopEvent::Control(ControlMessage::Stop)) + later,
        ) == MonitorState::Stopped(ExitCause::Requested),
{
    let stop = LoopEvent::Control(ControlMessage::Stop);
    let stopped = before.push(stop);
    assert(stopped.drop_last() =~= before);
    assert(stopped.last() == stop);
    law_running_delivers_every_line(before);
    law_nothing_delivered_after_stop(MonitorState::Running, stopped, later);
}

/// A `Stop` that reaches a loop which has already ended changes nothing:
/// the loop stays in the state it ended in and answers `Shutdown` again,
/// so the result it reports is the one it had.
pub proof fn law_stop_after_exit_changes_nothing(
    state: MonitorState,
    exit: Result<Option<i32>, std::io::Error>,
    stderr: Seq<char>,
    outcome: Result<(), BjigError>,
)
    requires
        state is Stopped,
    ensures
        state.after(LoopEvent::Control(ControlMessage::Stop)) == state,
        state.reaction(LoopEvent::Control(ControlMessage::Stop)) == LoopAction::Shutdown,
        state.after(LoopEvent::Control(ControlMessage::Stop)).concludes_with(exit, stderr, outcome)
            == state.concludes_with(exit, stderr, outcome),
{
}

/// The state a loop ended in, the exit of its process and what the process
/// wrote to standard error leave one result only.
pub proof fn law_result_is_determined(
    state: MonitorState,
    exit: Result<Option<i32>, std::io::Error>,
    stderr: Seq<char>,
    first: Result<(), BjigError>,
    second: Result<(), BjigError>,
)
    requires
        state.concludes_with(exit, stderr, first),
        state.concludes_with(exit, stderr, second),
    ensures
        same_result(first, second),
{
}

/// A process that writes some lines and then exits with status zero, under
/// a callback that always says to go on: every line is delivered, once and
/// in order, and the loop's result is success.
pub proof fn law_lines_then_clean_exit(
    lines: Seq<LoopEvent>,
    stderr: Seq<char>,
    outcome: Result<(), BjigError>,
)
    requires
        is_quiet(lines),
        state_after(MonitorState::Running, lines.push(LoopEvent::EndOfStream)).concludes_with(
            Ok(Some(0i32)),
            stderr,
            outcome,
        ),
    ensures
        delivered(MonitorState::Running, lines.push(LoopEvent::EndOfStream)) == lines_of(lines),
        state_after(MonitorState::Running, lines.push(LoopEvent::EndOfStream))
            == MonitorState::Stopped(ExitCause::EndOfStream),
        outcome == Ok::<(), BjigError>(()),
{
    let ended = lines.push(LoopEvent::EndOfStream);
    assert(ended.drop_last() =~= lines);
    assert(ended.last() == LoopEvent::EndOfStream);
    law_running_delivers_every_line(lines);
}

/// When the callback says stop, the loop ends at once: the answer is
/// `Shutdown`, no line that arrives afterwards is delivered, and the result
/// is success whatever status the process exits with.
pub proof fn law_callback_stop_ends_delivery(
    start: MonitorState,
    before: Seq<LoopEvent>,
    later: Seq<LoopEvent>,
    exit: Result<Option<i32>, std::io::Error>,
    stderr: Seq<char>,
    outcome: Result<(), BjigError>,
)
    requires
        !(state_after(start, before) is Stopped),
        state_after(
            start,
            before.push(LoopEvent::CallbackReturned(Ok(false))) + later,
        ).concludes_with(exit, stderr, outcome),
    ensures
        state_after(start, before).reaction(LoopEvent::CallbackReturned(Ok(false)))
            == LoopAction::Shutdown,
        state_after(start, before.push(LoopEvent::CallbackReturned(Ok(false))) + later)
            == MonitorState::Stopped(ExitCause::Requested),
        delivered(start, before.push(LoopEvent::CallbackReturned(Ok(false))) + later)
            == delivered(start, before),
        outcome == Ok::<(), BjigError>(()),
{
    let stop = LoopEvent::CallbackReturned(Ok(false));
    let stopped = before.push(stop);
    assert(stopped.drop_last() =~= before);
    assert(stopped.last() == stop);
    law_nothing_delivered_after_stop(start, stopped, later);
}

/// An elapsed deadline is a `Stop`: in every state it leads where a `Stop`
/// signal leads and is answered as one.
pub proof fn law_deadline_acts_as_stop(state: MonitorState)
    ensures
        state.after(LoopEvent::DeadlineElapsed) == state.after(
            LoopEvent::Control(ControlMessage::Stop),
        ),
        state.reaction(LoopEvent::DeadlineElapsed) == state.reaction(
            LoopEvent::Control(ControlMessage::Stop),
        ),
        state.reaction(LoopEvent::DeadlineElapsed) == LoopAction::Shutdown,
{
}

/// A handle that is released sends `Stop` if the queue has room, and in
/// any case leaves the queue without a sender. Whichever of the two the
/// loop then sees, it ends with `Shutdown`, and a loop ended this way
/// reports success whatever status the process exits with.
pub proof fn law_released_handle_ends_loop(
    state: MonitorState,
    exit: Result<Option<i32>, std::io::Error>,
    stderr: Seq<char>,
)
    requires
        !(state is Stopped),
    ensures
        state.after(LoopEvent::Control(ControlMessage::Stop)) == MonitorState::Stopped(
            ExitCause::Requested,
        ),
        state.after(LoopEvent::ChannelClosed) == MonitorState::Stopped(ExitCause::Requested),
        state.reaction(LoopEvent::Control(ControlMessage::Stop)) == LoopAction::Shutdown,
        state.reaction(LoopEvent::ChannelClosed) == LoopAction::Shutdown,
        MonitorState::Stopped(ExitCause::Requested).concludes_with(
            exit,
            stderr,
            Ok::<(), BjigError>(()),
        ),
{
}

} // verus!
