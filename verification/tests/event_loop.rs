use local_control::event_loop::{
    expects_event, step, InputResult, LoopAction, LoopEvent, LoopExit, LoopFailure, LoopState,
    OutputResult, PollResult, Readiness, Stage,
};

fn ready(stdin: bool, master: bool, hung_up: bool, resize: bool) -> Readiness {
    Readiness {
        stdin_readable: stdin,
        master_readable: master,
        master_hung_up: hung_up,
        resize_pending: resize,
    }
}

#[test]
fn ready_sources_are_handled_in_order() {
    let readiness = ready(true, true, false, true);
    let (state, action) = step(LoopState::Polling, LoopEvent::Polled(PollResult::Ready(readiness)));
    assert_eq!(action, LoopAction::HandleResize);
    let (state, action) = step(state, LoopEvent::ResizeHandled);
    assert_eq!(action, LoopAction::ForwardOutput);
    let (state, action) = step(state, LoopEvent::OutputForwarded(OutputResult::Forwarded));
    assert_eq!(action, LoopAction::ForwardInput);
    let (state, action) = step(state, LoopEvent::InputForwarded(InputResult::Forwarded));
    assert_eq!((state, action), (LoopState::Polling, LoopAction::Poll));
}

#[test]
fn interrupted_polls_are_retried_and_failures_end_the_loop() {
    assert_eq!(
        step(LoopState::Polling, LoopEvent::Polled(PollResult::Interrupted)),
        (LoopState::Polling, LoopAction::Poll)
    );
    let failed = LoopExit::Failed(LoopFailure::Poll);
    assert_eq!(
        step(LoopState::Polling, LoopEvent::Polled(PollResult::Failed)),
        (LoopState::Finished(failed), LoopAction::Finish(failed))
    );
    assert_eq!(
        step(LoopState::Polling, LoopEvent::Polled(PollResult::Ready(ready(false, false, false, false)))),
        (LoopState::Polling, LoopAction::Poll)
    );
}

#[test]
fn hangup_drains_output_and_preempts_input() {
    let readiness = ready(true, false, true, false);
    let (state, action) = step(LoopState::Polling, LoopEvent::Polled(PollResult::Ready(readiness)));
    assert_eq!(action, LoopAction::DrainOutput);
    assert_eq!(state, LoopState::Handling { readiness, stage: Stage::Hangup });
    assert!(!expects_event(&state, &LoopEvent::InputForwarded(InputResult::Forwarded)));
    let (state, action) = step(state, LoopEvent::OutputDrained);
    assert_eq!(action, LoopAction::Finish(LoopExit::Completed));
    assert_eq!(state, LoopState::Finished(LoopExit::Completed));
}

#[test]
fn end_of_streams_and_write_failures_end_the_loop() {
    let readiness = ready(true, true, false, false);
    let (state, _) = step(LoopState::Polling, LoopEvent::Polled(PollResult::Ready(readiness)));
    assert_eq!(
        step(state, LoopEvent::OutputForwarded(OutputResult::EndOfOutput)).1,
        LoopAction::Finish(LoopExit::Completed)
    );
    assert_eq!(
        step(state, LoopEvent::OutputForwarded(OutputResult::WriteFailed)).1,
        LoopAction::Finish(LoopExit::Failed(LoopFailure::WriteStdout))
    );
    let input_only = ready(true, false, false, false);
    let (state, action) = step(LoopState::Polling, LoopEvent::Polled(PollResult::Ready(input_only)));
    assert_eq!(action, LoopAction::ForwardInput);
    assert_eq!(
        step(state, LoopEvent::InputForwarded(InputResult::EndOfInput)).1,
        LoopAction::Finish(LoopExit::Completed)
    );
    assert_eq!(
        step(state, LoopEvent::InputForwarded(InputResult::ReadFailed)).1,
        LoopAction::Finish(LoopExit::Failed(LoopFailure::ReadStdin))
    );
    assert_eq!(
        step(state, LoopEvent::InputForwarded(InputResult::WriteFailed)).1,
        LoopAction::Finish(LoopExit::Failed(LoopFailure::WritePty))
    );
}

#[test]
fn unexpected_events_leave_the_state_and_poll_again() {
    assert_eq!(
        step(LoopState::Polling, LoopEvent::ResizeHandled),
        (LoopState::Polling, LoopAction::Poll)
    );
}
