//! The event loop's state machine.
//!
//! The loop runs as Idle until started, then Running; a cancellation
//! signal moves it to Draining, where in-flight notifications still run
//! to completion but the loop exits as soon as the queue is empty; a
//! permanently closed notification source stops it immediately.  The
//! decision for each iteration is a pure function of the state and the
//! observed input, so responsiveness to shutdown never depends on
//! throughput.

use vstd::prelude::*;

verus! {

/// The loop's lifecycle states.
#[derive(Debug, Clone, Copy, PartialEq, Eq, Structural)]
pub enum LoopState {
    Idle,
    Running,
    Draining,
    Stopped,
}

/// What one iteration of the loop observed, in priority order: the
/// cancellation signal is checked first, then the notification queue.
#[derive(Debug, Clone, Copy, PartialEq, Eq, Structural)]
pub enum LoopInput {
    Started,
    CancellationSignaled,
    NotificationReady,
    QueueEmpty,
    SourceClosed,
}

/// What the loop does next: process the pulled notification, yield
/// briefly so cancellation stays responsive, exit, or nothing.
#[derive(Debug, Clone, Copy, PartialEq, Eq, Structural)]
pub enum LoopAction {
    ProcessNext,
    YieldBriefly,
    Exit,
    NoAction,
}

/// The transition table of the loop.
pub open spec fn loop_step_spec(state: LoopState, input: LoopInput) -> (LoopState, LoopAction) {
    match (state, input) {
        (LoopState::Idle, LoopInput::Started) => (LoopState::Running, LoopAction::NoAction),
        (LoopState::Idle, _) => (LoopState::Idle, LoopAction::NoAction),
        (LoopState::Running, LoopInput::CancellationSignaled) => (
            LoopState::Draining,
            LoopAction::NoAction,
        ),
        (LoopState::Running, LoopInput::NotificationReady) => (
            LoopState::Running,
            LoopAction::ProcessNext,
        ),
        (LoopState::Running, LoopInput::QueueEmpty) => (
            LoopState::Running,
            LoopAction::YieldBriefly,
        ),
        (LoopState::Running, LoopInput::SourceClosed) => (LoopState::Stopped, LoopAction::Exit),
        (LoopState::Running, LoopInput::Started) => (LoopState::Running, LoopAction::NoAction),
        (LoopState::Draining, LoopInput::NotificationReady) => (
            LoopState::Draining,
            LoopAction::ProcessNext,
        ),
        (LoopState::Draining, LoopInput::QueueEmpty) => (LoopState::Stopped, LoopAction::Exit),
        (LoopState::Draining, LoopInput::SourceClosed) => (LoopState::Stopped, LoopAction::Exit),
        (LoopState::Draining, _) => (LoopState::Draining, LoopAction::NoAction),
        (LoopState::Stopped, _) => (LoopState::Stopped, LoopAction::NoAction),
    }
}

/// Takes one step of the loop's state machine.
pub fn loop_step(state: LoopState, input: LoopInput) -> (r: (LoopState, LoopAction))
    ensures
        r == loop_step_spec(state, input),
{
    match (state, input) {
        (LoopState::Idle, LoopInput::Started) => (LoopState::Running, LoopAction::NoAction),
        (LoopState::Idle, _) => (LoopState::Idle, LoopAction::NoAction),
        (LoopState::Running, LoopInput::CancellationSignaled) => (
            LoopState::Draining,
            LoopAction::NoAction,
        ),
        (LoopState::Running, LoopInput::NotificationReady) => (
            LoopState::Running,
            LoopAction::ProcessNext,
        ),
        (LoopState::Running, LoopInput::QueueEmpty) => (
            LoopState::Running,
            LoopAction::YieldBriefly,
        ),
        (LoopState::Running, LoopInput::SourceClosed) => (LoopState::Stopped, LoopAction::Exit),
        (LoopState::Running, LoopInput::Started) => (LoopState::Running, LoopAction::NoAction),
        (LoopState::Draining, LoopInput::NotificationReady) => (
            LoopState::Draining,
            LoopAction::ProcessNext,
        ),
        (LoopState::Draining, LoopInput::QueueEmpty) => (LoopState::Stopped, LoopAction::Exit),
        (LoopState::Draining, LoopInput::SourceClosed) => (LoopState::Stopped, LoopAction::Exit),
        (LoopState::Draining, _) => (LoopState::Draining, LoopAction::NoAction),
        (LoopState::Stopped, _) => (LoopState::Stopped, LoopAction::NoAction),
    }
}

/// Once cancellation has been observed the loop never runs freely again:
/// from Draining or Stopped no input leads back to Running, and a
/// stopped loop stays stopped and does nothing.
pub proof fn lemma_shutdown_absorbing(state: LoopState, input: LoopInput)
    requires
        state is Draining || state is Stopped,
    ensures
        !(loop_step_spec(state, input).0 is Running),
        !(loop_step_spec(state, input).0 is Idle),
        state is Stopped ==> loop_step_spec(state, input) == (
            LoopState::Stopped,
            LoopAction::NoAction,
        ),
{
}

} // verus!
