//! The Wi-Fi connectivity supervisor.
//!
//! The supervisor owns the radio's association state machine and maintains
//! association indefinitely: it configures and starts the radio when it is
//! not started, attempts association, and after a disconnect or a failed
//! attempt waits a fixed cooldown before trying again. Failures are never
//! fatal; the loop retries forever. The radio driver performs the actual
//! start, association and event waits and reports their outcomes back as
//! events.

use vstd::prelude::*;

verus! {

/// Cooldown between a disconnect or a failed association attempt and the
/// next attempt.
pub const RECONNECT_COOLDOWN_MS: u64 = 5_000;

/// The supervisor's association states.
#[derive(Clone, Copy, PartialEq, Eq, Structural, Debug)]
pub enum SupervisorState {
    /// Initial state: nothing attempted yet.
    Idle,
    /// The radio is being configured and started.
    Starting,
    /// An association attempt is in flight.
    Connecting,
    /// Associated; the supervisor sits waiting for a disconnect event.
    Connected,
    /// Association was lost or an attempt failed; the cooldown is running.
    Disconnected,
}

/// What the radio driver reports to the supervisor.
#[derive(Clone, Copy, PartialEq, Eq, Structural, Debug)]
pub enum SupervisorEvent {
    /// The supervisor's turn to act, with nothing else pending.
    Tick,
    /// A disconnect event arrived while associated.
    LinkLost,
    /// The cooldown wait finished.
    CooldownElapsed,
    /// The radio finished starting.
    Started,
    /// An association attempt finished with this success flag.
    ConnectResult(bool),
}

/// What the supervisor asks the driver to do next.
#[derive(Clone, Copy, PartialEq, Eq, Structural, Debug)]
pub enum SupervisorAction {
    /// Configure the radio with the network credentials and start it.
    ConfigureAndStart,
    /// Attempt one association.
    Connect,
    /// Wait out the cooldown, in milliseconds.
    Wait(u64),
    /// Block until a disconnect event arrives.
    AwaitDisconnect,
}

/// The transition relation of the supervisor: from the current state, the
/// event that resolved, and whether the radio is already started, to the
/// next state and the next driver request.
pub open spec fn spec_supervisor_step(
    state: SupervisorState,
    event: SupervisorEvent,
    radio_started: bool,
) -> (SupervisorState, SupervisorAction) {
    match (state, event) {
        (SupervisorState::Connected, SupervisorEvent::LinkLost) => (
            SupervisorState::Disconnected,
            SupervisorAction::Wait(RECONNECT_COOLDOWN_MS),
        ),
        (SupervisorState::Connected, _) => (
            SupervisorState::Connected,
            SupervisorAction::AwaitDisconnect,
        ),
        (SupervisorState::Idle, SupervisorEvent::Tick) => if radio_started {
            (SupervisorState::Connecting, SupervisorAction::Connect)
        } else {
            (SupervisorState::Starting, SupervisorAction::ConfigureAndStart)
        },
        (SupervisorState::Disconnected, SupervisorEvent::CooldownElapsed) => if radio_started {
            (SupervisorState::Connecting, SupervisorAction::Connect)
        } else {
            (SupervisorState::Starting, SupervisorAction::ConfigureAndStart)
        },
        (SupervisorState::Starting, SupervisorEvent::Started) => (
            SupervisorState::Connecting,
            SupervisorAction::Connect,
        ),
        (SupervisorState::Connecting, SupervisorEvent::ConnectResult(true)) => (
            SupervisorState::Connected,
            SupervisorAction::AwaitDisconnect,
        ),
        (SupervisorState::Connecting, SupervisorEvent::ConnectResult(false)) => (
            SupervisorState::Disconnected,
            SupervisorAction::Wait(RECONNECT_COOLDOWN_MS),
        ),
        (s, _) => (s, SupervisorAction::AwaitDisconnect),
    }
}

/// One turn of the supervisor.
///
/// A disconnect while associated leads to exactly one cooldown wait followed
/// (on its expiry) by exactly one new association attempt; a failed attempt
/// likewise waits out the cooldown before the retry; the radio is configured
/// and started first whenever it is not already started. An event that does
/// not belong to the current state changes nothing and returns to waiting.
pub fn supervisor_step(state: SupervisorState, event: SupervisorEvent, radio_started: bool) -> (r:
    (SupervisorState, SupervisorAction))
    ensures
        r == spec_supervisor_step(state, event, radio_started),
        state is Connected && event is LinkLost ==> r.0 is Disconnected && r.1
            == SupervisorAction::Wait(RECONNECT_COOLDOWN_MS),
        state is Disconnected && event is CooldownElapsed ==> r.1 == SupervisorAction::Connect
            || r.1 == SupervisorAction::ConfigureAndStart,
{
    match (state, event) {
        (SupervisorState::Connected, SupervisorEvent::LinkLost) => (
            SupervisorState::Disconnected,
            SupervisorAction::Wait(RECONNECT_COOLDOWN_MS),
        ),
        (SupervisorState::Connected, _) => (
            SupervisorState::Connected,
            SupervisorAction::AwaitDisconnect,
        ),
        (SupervisorState::Idle, SupervisorEvent::Tick) => if radio_started {
            (SupervisorState::Connecting, SupervisorAction::Connect)
        } else {
            (SupervisorState::Starting, SupervisorAction::ConfigureAndStart)
        },
        (SupervisorState::Disconnected, SupervisorEvent::CooldownElapsed) => if radio_started {
            (SupervisorState::Connecting, SupervisorAction::Connect)
        } else {
            (SupervisorState::Starting, SupervisorAction::ConfigureAndStart)
        },
        (SupervisorState::Starting, SupervisorEvent::Started) => (
            SupervisorState::Connecting,
            SupervisorAction::Connect,
        ),
        (SupervisorState::Connecting, SupervisorEvent::ConnectResult(ok)) => if ok {
            (SupervisorState::Connected, SupervisorAction::AwaitDisconnect)
        } else {
            (SupervisorState::Disconnected, SupervisorAction::Wait(RECONNECT_COOLDOWN_MS))
        },
        (s, _) => (s, SupervisorAction::AwaitDisconnect),
    }
}

/// Resilience law: from every state, whatever the radio reports, the
/// supervisor keeps going — each turn yields a next state and a next driver
/// request, and a lost link is always answered by the cooldown and then a
/// new association attempt, never by giving up.
pub proof fn lemma_supervisor_recovers(event: SupervisorEvent, radio_started: bool)
    ensures
        ({
            let (s1, a1) = spec_supervisor_step(SupervisorState::Connected, event, radio_started);
            event is LinkLost ==> s1 is Disconnected && a1 == SupervisorAction::Wait(
                RECONNECT_COOLDOWN_MS)
        }),
        ({
            let (s2, a2) = spec_supervisor_step(
                SupervisorState::Disconnected,
                SupervisorEvent::CooldownElapsed,
                radio_started,
            );
            a2 == (if radio_started {
                SupervisorAction::Connect
            } else {
                SupervisorAction::ConfigureAndStart
            })
        }),
{
}

} // verus!
