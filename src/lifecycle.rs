//! The launch sequence of the shell: wait for the window to settle, start the
//! services, wait a fixed warm-up period, then report readiness. The waits are
//! blind delays, not readiness checks; the caller performs each action and
//! reports back with the next event.

use vstd::prelude::*;

verus! {

/// Delay before starting the services, so that the window can come up.
pub const SETTLE_DELAY_MS: u64 = 500;

/// Delay after starting the services, before reporting readiness.
pub const WARM_UP_DELAY_MS: u64 = 10_000;

/// Where the launch sequence stands.
#[derive(Debug, Clone, Copy, PartialEq, Eq, Structural)]
pub enum LaunchPhase {
    Idle,
    Settling,
    Starting,
    WarmingUp,
    Ready,
}

/// What happened since the last step.
#[derive(Debug, Clone, Copy, PartialEq, Eq, Structural)]
pub enum LaunchEvent {
    /// The shell has launched.
    Launched,
    /// The requested delay has passed.
    DelayElapsed,
    /// The start request has returned, successfully or not.
    StartFinished { succeeded: bool },
}

/// What the caller is to do next.
#[derive(Debug, Clone, Copy, PartialEq, Eq, Structural)]
pub enum LaunchAction {
    /// Wait the given number of milliseconds, then report `DelayElapsed`.
    Wait(u64),
    /// Start the services, then report `StartFinished`.
    StartServices,
    /// Report that the shell is ready; the sequence is over.
    AnnounceReady,
    /// Nothing: the event does not apply in this phase.
    Ignore,
}

/// The phase and action that follow `event` in `phase`.
pub open spec fn launch_transition(phase: LaunchPhase, event: LaunchEvent) -> (LaunchPhase, LaunchAction) {
    match (phase, event) {
        (LaunchPhase::Idle, LaunchEvent::Launched) => (LaunchPhase::Settling, LaunchAction::Wait(
            SETTLE_DELAY_MS,
        )),
        (LaunchPhase::Settling, LaunchEvent::DelayElapsed) => (
            LaunchPhase::Starting,
            LaunchAction::StartServices,
        ),
        (LaunchPhase::Starting, LaunchEvent::StartFinished { .. }) => (
            LaunchPhase::WarmingUp,
            LaunchAction::Wait(WARM_UP_DELAY_MS),
        ),
        (LaunchPhase::WarmingUp, LaunchEvent::DelayElapsed) => (
            LaunchPhase::Ready,
            LaunchAction::AnnounceReady,
        ),
        _ => (phase, LaunchAction::Ignore),
    }
}

/// One step of the launch sequence. A failed start does not end it: the
/// warm-up wait follows either way, as the failure has been reported already.
pub fn launch_step(phase: LaunchPhase, event: LaunchEvent) -> (r: (LaunchPhase, LaunchAction))
    ensures
        r == launch_transition(phase, event),
{
    match (phase, event) {
        (LaunchPhase::Idle, LaunchEvent::Launched) => (
            LaunchPhase::Settling,
            LaunchAction::Wait(SETTLE_DELAY_MS),
        ),
        (LaunchPhase::Settling, LaunchEvent::DelayElapsed) => (
            LaunchPhase::Starting,
            LaunchAction::StartServices,
        ),
        (LaunchPhase::Starting, LaunchEvent::StartFinished { .. }) => (
            LaunchPhase::WarmingUp,
            LaunchAction::Wait(WARM_UP_DELAY_MS),
        ),
        (LaunchPhase::WarmingUp, LaunchEvent::DelayElapsed) => (
            LaunchPhase::Ready,
            LaunchAction::AnnounceReady,
        ),
        _ => (phase, LaunchAction::Ignore),
    }
}

/// From launch, the sequence waits the settle delay, starts the services
/// once, waits the warm-up delay and ends ready, whether the start succeeded
/// or not.
pub proof fn lemma_launch_sequence(succeeded: bool)
    ensures
        ({
            let (p1, a1) = launch_transition(LaunchPhase::Idle, LaunchEvent::Launched);
            let (p2, a2) = launch_transition(p1, LaunchEvent::DelayElapsed);
            let (p3, a3) = launch_transition(p2, LaunchEvent::StartFinished { succeeded });
            let (p4, a4) = launch_transition(p3, LaunchEvent::DelayElapsed);
            &&& a1 == LaunchAction::Wait(SETTLE_DELAY_MS)
            &&& a2 == LaunchAction::StartServices
            &&& a3 == LaunchAction::Wait(WARM_UP_DELAY_MS)
            &&& a4 == LaunchAction::AnnounceReady
            &&& p4 == LaunchPhase::Ready
        }),
{
}

/// Once ready, no event leads anywhere else or asks for anything.
pub proof fn lemma_ready_is_final(event: LaunchEvent)
    ensures
        launch_transition(LaunchPhase::Ready, event) == (LaunchPhase::Ready, LaunchAction::Ignore),
{
}

} // verus!
