use vstd::prelude::*;

verus! {

/// What one poll of standard input, the pty master and the resize self-pipe reported.
#[derive(Clone, Copy, Debug, PartialEq, Eq, Structural)]
pub struct Readiness {
    pub stdin_readable: bool,
    pub master_readable: bool,
    pub master_hung_up: bool,
    pub resize_pending: bool,
}

/// The outcome of a poll.
#[derive(Clone, Copy, Debug, PartialEq, Eq, Structural)]
pub enum PollResult {
    Ready(Readiness),
    /// A signal interrupted the poll before anything was ready.
    Interrupted,
    Failed,
}

/// The outcome of reading the pty master and writing what was read to standard output.
#[derive(Clone, Copy, Debug, PartialEq, Eq, Structural)]
pub enum OutputResult {
    Forwarded,
    /// The read returned no data or failed: the shell side is gone.
    EndOfOutput,
    WriteFailed,
    FlushFailed,
}

/// The outcome of reading standard input and writing what was read to the pty master.
#[derive(Clone, Copy, Debug, PartialEq, Eq, Structural)]
pub enum InputResult {
    Forwarded,
    EndOfInput,
    ReadFailed,
    WriteFailed,
}

/// Why the loop failed.
#[derive(Clone, Copy, Debug, PartialEq, Eq, Structural)]
pub enum LoopFailure {
    Poll,
    WriteStdout,
    FlushStdout,
    ReadStdin,
    WritePty,
}

/// How the loop ended.
#[derive(Clone, Copy, Debug, PartialEq, Eq, Structural)]
pub enum LoopExit {
    Completed,
    Failed(LoopFailure),
}

/// The sources handled after a poll, in the order they are handled.
#[derive(Clone, Copy, Debug, PartialEq, Eq, Structural)]
pub enum Stage {
    Resize,
    Output,
    Hangup,
    Input,
    Done,
}

/// Where the loop stands.
#[derive(Clone, Copy, Debug, PartialEq, Eq, Structural)]
pub enum LoopState {
    /// Waiting for the result of a poll.
    Polling,
    /// Handling the sources that a poll found ready; `stage` is being handled.
    Handling { readiness: Readiness, stage: Stage },
    Finished(LoopExit),
}

/// What the loop's driver reports back after carrying out an action.
#[derive(Clone, Copy, Debug, PartialEq, Eq, Structural)]
pub enum LoopEvent {
    Polled(PollResult),
    /// The resize self-pipe was drained and the pty size synchronised (a failed
    /// synchronisation is only logged).
    ResizeHandled,
    OutputForwarded(OutputResult),
    /// After a hang-up, the remaining output was drained to standard output.
    OutputDrained,
    InputForwarded(InputResult),
}

/// What the driver does next.
#[derive(Clone, Copy, Debug, PartialEq, Eq, Structural)]
pub enum LoopAction {
    Poll,
    /// Drain the resize self-pipe, then synchronise the pty size with the terminal.
    HandleResize,
    /// Read once from the pty master and write it to standard output, flushed.
    ForwardOutput,
    /// Read the pty master until it is empty, writing to standard output, then flush.
    DrainOutput,
    /// Read once from standard input and write it to the pty master.
    ForwardInput,
    Finish(LoopExit),
}

pub open spec fn stage_rank(stage: Stage) -> int {
    match stage {
        Stage::Resize => 0,
        Stage::Output => 1,
        Stage::Hangup => 2,
        Stage::Input => 3,
        Stage::Done => 4,
    }
}

/// Whether `stage` has work after a poll that reported `readiness`.
pub open spec fn stage_ready(readiness: Readiness, stage: Stage) -> bool {
    match stage {
        Stage::Resize => readiness.resize_pending,
        Stage::Output => readiness.master_readable,
        Stage::Hangup => readiness.master_hung_up,
        Stage::Input => readiness.stdin_readable,
        Stage::Done => false,
    }
}

pub open spec fn stage_after(stage: Stage) -> Stage {
    match stage {
        Stage::Resize => Stage::Output,
        Stage::Output => Stage::Hangup,
        Stage::Hangup => Stage::Input,
        Stage::Input => Stage::Done,
        Stage::Done => Stage::Done,
    }
}

/// The first stage from `stage` on that has work, or `Done`.
pub open spec fn first_ready_stage(readiness: Readiness, stage: Stage) -> Stage
    decreases 4 - stage_rank(stage),
{
    if stage == Stage::Done || stage_ready(readiness, stage) {
        stage
    } else {
        first_ready_stage(readiness, stage_after(stage))
    }
}

pub open spec fn stage_action(stage: Stage) -> LoopAction {
    match stage {
        Stage::Resize => LoopAction::HandleResize,
        Stage::Output => LoopAction::ForwardOutput,
        Stage::Hangup => LoopAction::DrainOutput,
        Stage::Input => LoopAction::ForwardInput,
        Stage::Done => LoopAction::Poll,
    }
}

/// Handling a poll's results from `stage` on: the next ready source, or another poll.
pub open spec fn dispatch_from(readiness: Readiness, stage: Stage) -> (LoopState, LoopAction) {
    let next = first_ready_stage(readiness, stage);
    if next == Stage::Done {
        (LoopState::Polling, LoopAction::Poll)
    } else {
        (LoopState::Handling { readiness, stage: next }, stage_action(next))
    }
}

pub open spec fn finished(exit: LoopExit) -> (LoopState, LoopAction) {
    (LoopState::Finished(exit), LoopAction::Finish(exit))
}

/// Whether `event` answers the action that `state` is waiting on.
pub open spec fn expects(state: LoopState, event: LoopEvent) -> bool {
    match (state, event) {
        (LoopState::Polling, LoopEvent::Polled(_)) => true,
        (LoopState::Handling { stage: Stage::Resize, .. }, LoopEvent::ResizeHandled) => true,
        (LoopState::Handling { stage: Stage::Output, .. }, LoopEvent::OutputForwarded(_)) => true,
        (LoopState::Handling { stage: Stage::Hangup, .. }, LoopEvent::OutputDrained) => true,
        (LoopState::Handling { stage: Stage::Input, .. }, LoopEvent::InputForwarded(_)) => true,
        _ => false,
    }
}

/// The loop's decisions. After a poll, the ready sources are handled in a fixed order:
/// a pending resize, then the shell's output, then a hang-up (which drains the output and
/// ends the loop), then the user's input. An interrupted poll is retried; end of output or
/// of input ends the loop normally; a failed poll, a failed write to standard output or the
/// pty, and a failed read of standard input end it with that failure.
pub open spec fn step_spec(state: LoopState, event: LoopEvent) -> (LoopState, LoopAction) {
    match (state, event) {
        (LoopState::Polling, LoopEvent::Polled(PollResult::Interrupted)) => (LoopState::Polling, LoopAction::Poll),
        (LoopState::Polling, LoopEvent::Polled(PollResult::Failed)) => finished(LoopExit::Failed(LoopFailure::Poll)),
        (LoopState::Polling, LoopEvent::Polled(PollResult::Ready(readiness))) => dispatch_from(readiness, Stage::Resize),
        (LoopState::Handling { readiness, .. }, LoopEvent::ResizeHandled) => dispatch_from(readiness, Stage::Output),
        (LoopState::Handling { readiness, .. }, LoopEvent::OutputForwarded(result)) => match result {
            OutputResult::Forwarded => dispatch_from(readiness, Stage::Hangup),
            OutputResult::EndOfOutput => finished(LoopExit::Completed),
            OutputResult::WriteFailed => finished(LoopExit::Failed(LoopFailure::WriteStdout)),
            OutputResult::FlushFailed => finished(LoopExit::Failed(LoopFailure::FlushStdout)),
        },
        (LoopState::Handling { .. }, LoopEvent::OutputDrained) => finished(LoopExit::Completed),
        (LoopState::Handling { readiness, .. }, LoopEvent::InputForwarded(result)) => match result {
            InputResult::Forwarded => dispatch_from(readiness, Stage::Done),
            InputResult::EndOfInput => finished(LoopExit::Completed),
            InputResult::ReadFailed => finished(LoopExit::Failed(LoopFailure::ReadStdin)),
            InputResult::WriteFailed => finished(LoopExit::Failed(LoopFailure::WritePty)),
        },
        _ => (state, LoopAction::Poll),
    }
}

/// Whether `event` is one that the loop in `state` waits for.
pub fn expects_event(state: &LoopState, event: &LoopEvent) -> (expected: bool)
    ensures
        expected == expects(*state, *event),
{
    match (state, event) {
        (LoopState::Polling, LoopEvent::Polled(_)) => true,
        (LoopState::Handling { stage: Stage::Resize, .. }, LoopEvent::ResizeHandled) => true,
        (LoopState::Handling { stage: Stage::Output, .. }, LoopEvent::OutputForwarded(_)) => true,
        (LoopState::Handling { stage: Stage::Hangup, .. }, LoopEvent::OutputDrained) => true,
        (LoopState::Handling { stage: Stage::Input, .. }, LoopEvent::InputForwarded(_)) => true,
        _ => false,
    }
}

fn is_stage_ready(readiness: &Readiness, stage: Stage) -> (ready: bool)
    ensures
        ready == stage_ready(*readiness, stage),
{
    match stage {
        Stage::Resize => readiness.resize_pending,
        Stage::Output => readiness.master_readable,
        Stage::Hangup => readiness.master_hung_up,
        Stage::Input => readiness.stdin_readable,
        Stage::Done => false,
    }
}

fn next_stage(stage: Stage) -> (next: Stage)
    ensures
        next == stage_after(stage),
{
    match stage {
        Stage::Resize => Stage::Output,
        Stage::Output => Stage::Hangup,
        Stage::Hangup => Stage::Input,
        Stage::Input => Stage::Done,
        Stage::Done => Stage::Done,
    }
}

fn dispatch(readiness: Readiness, from: Stage) -> (next: (LoopState, LoopAction))
    ensures
        next == dispatch_from(readiness, from),
{
    let mut stage = from;
    while stage != Stage::Done && !is_stage_ready(&readiness, stage)
        invariant
            first_ready_stage(readiness, stage) == first_ready_stage(readiness, from),
        decreases 4 - stage_rank(stage),
    {
        stage = next_stage(stage);
    }
    match stage {
        Stage::Resize => (LoopState::Handling { readiness, stage }, LoopAction::HandleResize),
        Stage::Output => (LoopState::Handling { readiness, stage }, LoopAction::ForwardOutput),
        Stage::Hangup => (LoopState::Handling { readiness, stage }, LoopAction::DrainOutput),
        Stage::Input => (LoopState::Handling { readiness, stage }, LoopAction::ForwardInput),
        Stage::Done => (LoopState::Polling, LoopAction::Poll),
    }
}

/// The loop's next state and action after `event`. An event that the loop does not wait
/// for in `state` leaves the state as it is and polls again.
pub fn step(state: LoopState, event: LoopEvent) -> (next: (LoopState, LoopAction))
    ensures
        next == step_spec(state, event),
{
    match (state, event) {
        (LoopState::Polling, LoopEvent::Polled(PollResult::Interrupted)) => (LoopState::Polling, LoopAction::Poll),
        (LoopState::Polling, LoopEvent::Polled(PollResult::Failed)) => {
            let exit = LoopExit::Failed(LoopFailure::Poll);
            (LoopState::Finished(exit), LoopAction::Finish(exit))
        },
        (LoopState::Polling, LoopEvent::Polled(PollResult::Ready(readiness))) => dispatch(readiness, Stage::Resize),
        (LoopState::Handling { readiness, .. }, LoopEvent::ResizeHandled) => dispatch(readiness, Stage::Output),
        (LoopState::Handling { readiness, .. }, LoopEvent::OutputForwarded(result)) => {
            let exit = match result {
                OutputResult::Forwarded => {
                    return dispatch(readiness, Stage::Hangup);
                },
                OutputResult::EndOfOutput => LoopExit::Completed,
                OutputResult::WriteFailed => LoopExit::Failed(LoopFailure::WriteStdout),
                OutputResult::FlushFailed => LoopExit::Failed(LoopFailure::FlushStdout),
            };
            (LoopState::Finished(exit), LoopAction::Finish(exit))
        },
        (LoopState::Handling { .. }, LoopEvent::OutputDrained) => (
            LoopState::Finished(LoopExit::Completed),
            LoopAction::Finish(LoopExit::Completed),
        ),
        (LoopState::Handling { readiness, .. }, LoopEvent::InputForwarded(result)) => {
            let exit = match result {
                InputResult::Forwarded => {
                    return dispatch(readiness, Stage::Done);
                },
                InputResult::EndOfInput => LoopExit::Completed,
                InputResult::ReadFailed => LoopExit::Failed(LoopFailure::ReadStdin),
                InputResult::WriteFailed => LoopExit::Failed(LoopFailure::WritePty),
            };
            (LoopState::Finished(exit), LoopAction::Finish(exit))
        },
        _ => (state, LoopAction::Poll),
    }
}

/// A poll that a signal interrupts is simply repeated.
pub proof fn lemma_interrupted_poll_is_retried()
    ensures
        step_spec(LoopState::Polling, LoopEvent::Polled(PollResult::Interrupted)) == (
            LoopState::Polling,
            LoopAction::Poll,
        ),
{
}

/// A pending resize is handled before anything else that the same poll reported.
pub proof fn lemma_resize_is_handled_first(readiness: Readiness)
    requires
        readiness.resize_pending,
    ensures
        step_spec(LoopState::Polling, LoopEvent::Polled(PollResult::Ready(readiness))).1
            == LoopAction::HandleResize,
{
}

/// Once the shell side hung up, the user's input reported by the same poll is never
/// forwarded: the remaining output is drained and the loop ends.
pub proof fn lemma_hangup_preempts_input(readiness: Readiness, stage: Stage)
    requires
        readiness.master_hung_up,
        stage_rank(stage) <= 2,
    ensures
        dispatch_from(readiness, stage).1 != LoopAction::ForwardInput,
        dispatch_from(readiness, stage).1 != LoopAction::Poll,
    decreases 2 - stage_rank(stage),
{
    if stage != Stage::Hangup && !stage_ready(readiness, stage) {
        lemma_hangup_preempts_input(readiness, stage_after(stage));
    }
}

} // verus!
