//! The synchronous swap of the child's stdout handle.
//!
//! Before any background task runs, the child's current stdout stream is
//! taken, a replacement pipe is created, the pipe's read end becomes the
//! child's visible stdout, and the write end becomes the shared writer.
//! Each of these operations touches the operating system and can fail;
//! the driver outside the verified core performs them one at a time and
//! reports each outcome here. The machine below decides what happens
//! next, so that every failure surfaces as the right error and no
//! background task is ever spawned after a failure.

use crate::errors::ExecutorError;
use vstd::prelude::*;

verus! {

/// The operation the driver must perform next.
#[derive(Clone, Copy, PartialEq, Eq, Structural, Debug)]
pub enum SetupAction {
    /// Remove the child's current stdout stream.
    TakeStdout,
    /// Create the replacement OS pipe.
    CreatePipe,
    /// Wrap the pipe's read end and install it as the child's stdout.
    InstallReadEnd,
    /// Wrap the pipe's write end into the shared writer.
    WrapWriteEnd,
}

/// The outcome the driver reports for an action.
pub enum SetupEvent {
    /// The child had a stdout stream; it is now in hand.
    StdoutTaken,
    /// The child had no stdout stream attached.
    StdoutMissing,
    /// The replacement pipe was created.
    PipeMade,
    /// Pipe creation failed with an OS error.
    PipeFailed(std::io::Error),
    /// The read end was wrapped and installed as the child's stdout.
    ReadEndInstalled,
    /// Wrapping or installing the read end failed.
    InstallFailed(std::io::Error),
    /// The write end was wrapped into the shared writer.
    WriteEndWrapped,
    /// Wrapping the write end failed.
    WrapFailed(std::io::Error),
}

/// The state of the swap.
pub enum SetupState {
    /// Nothing has been done yet.
    Start,
    /// The original stdout stream is in hand.
    StdoutHeld,
    /// The replacement pipe exists.
    PipeReady,
    /// The pipe's read end is the child's visible stdout.
    ReadEndLive,
    /// The swap succeeded; forwarding may begin.
    Ready,
    /// The swap failed; no background task is spawned.
    Failed(ExecutorError),
}

/// The pending action of a state: `None` once the swap has finished, in
/// success or in failure.
pub open spec fn spec_setup_action(s: SetupState) -> Option<SetupAction> {
    match s {
        SetupState::Start => Some(SetupAction::TakeStdout),
        SetupState::StdoutHeld => Some(SetupAction::CreatePipe),
        SetupState::PipeReady => Some(SetupAction::InstallReadEnd),
        SetupState::ReadEndLive => Some(SetupAction::WrapWriteEnd),
        SetupState::Ready => None,
        SetupState::Failed(_) => None,
    }
}

/// How the swap advances: each successful outcome enables the next
/// action, and each failure ends the swap with the error that the entry
/// points surface — a missing stdout as the not-found error, a pipe
/// failure and a wrap failure carrying the OS error. An outcome that
/// answers no pending action changes nothing.
pub open spec fn spec_setup_step(s: SetupState, e: SetupEvent) -> SetupState {
    match (s, e) {
        (SetupState::Start, SetupEvent::StdoutTaken) => SetupState::StdoutHeld,
        (SetupState::Start, SetupEvent::StdoutMissing) => SetupState::Failed(
            ExecutorError::NoStdout,
        ),
        (SetupState::StdoutHeld, SetupEvent::PipeMade) => SetupState::PipeReady,
        (SetupState::StdoutHeld, SetupEvent::PipeFailed(err)) => SetupState::Failed(
            ExecutorError::PipeCreation(err),
        ),
        (SetupState::PipeReady, SetupEvent::ReadEndInstalled) => SetupState::ReadEndLive,
        (SetupState::PipeReady, SetupEvent::InstallFailed(err)) => SetupState::Failed(
            ExecutorError::StreamConstruction(err),
        ),
        (SetupState::ReadEndLive, SetupEvent::WriteEndWrapped) => SetupState::Ready,
        (SetupState::ReadEndLive, SetupEvent::WrapFailed(err)) => SetupState::Failed(
            ExecutorError::StreamConstruction(err),
        ),
        (s2, _) => s2,
    }
}

/// The state in which every swap begins.
pub fn setup_start() -> (r: SetupState)
    ensures
        r == SetupState::Start,
{
    SetupState::Start
}

/// The action the driver performs next, exactly as
/// [`spec_setup_action`] gives it.
pub fn setup_action(state: &SetupState) -> (r: Option<SetupAction>)
    ensures
        r == spec_setup_action(*state),
{
    match state {
        SetupState::Start => Some(SetupAction::TakeStdout),
        SetupState::StdoutHeld => Some(SetupAction::CreatePipe),
        SetupState::PipeReady => Some(SetupAction::InstallReadEnd),
        SetupState::ReadEndLive => Some(SetupAction::WrapWriteEnd),
        SetupState::Ready => None,
        SetupState::Failed(_) => None,
    }
}

/// Advances the swap by one reported outcome, exactly as
/// [`spec_setup_step`] gives it.
pub fn setup_step(state: SetupState, event: SetupEvent) -> (r: SetupState)
    ensures
        r == spec_setup_step(state, event),
{
    match (state, event) {
        (SetupState::Start, SetupEvent::StdoutTaken) => SetupState::StdoutHeld,
        (SetupState::Start, SetupEvent::StdoutMissing) => SetupState::Failed(
            ExecutorError::NoStdout,
        ),
        (SetupState::StdoutHeld, SetupEvent::PipeMade) => SetupState::PipeReady,
        (SetupState::StdoutHeld, SetupEvent::PipeFailed(err)) => SetupState::Failed(
            ExecutorError::PipeCreation(err),
        ),
        (SetupState::PipeReady, SetupEvent::ReadEndInstalled) => SetupState::ReadEndLive,
        (SetupState::PipeReady, SetupEvent::InstallFailed(err)) => SetupState::Failed(
            ExecutorError::StreamConstruction(err),
        ),
        (SetupState::ReadEndLive, SetupEvent::WriteEndWrapped) => SetupState::Ready,
        (SetupState::ReadEndLive, SetupEvent::WrapFailed(err)) => SetupState::Failed(
            ExecutorError::StreamConstruction(err),
        ),
        (s2, _) => s2,
    }
}

/// Law: a child with no stdout stream attached fails the swap at once
/// with the not-found error, and a failed swap requests nothing further —
/// in particular, no pipe is ever created for such a child.
pub proof fn lemma_missing_stdout_creates_no_pipe()
    ensures
        spec_setup_step(SetupState::Start, SetupEvent::StdoutMissing) == SetupState::Failed(
            ExecutorError::NoStdout,
        ),
        ExecutorError::NoStdout.is_not_found(),
        forall|err: ExecutorError|
            spec_setup_action(SetupState::Failed(err)) is None,
{
}

/// Law: the swap reports success only with no partial state left behind.
/// The succeeded state is reached only from the last step of the swap —
/// stdout taken, pipe created, read end installed, write end wrapped —
/// or kept once reached; no failing or partial run arrives there.
pub proof fn lemma_success_needs_every_step(s: SetupState, e: SetupEvent)
    ensures
        spec_setup_step(s, e) == SetupState::Ready ==> (s == SetupState::ReadEndLive
            && e is WriteEndWrapped) || s == SetupState::Ready,
{
}

} // verus!
