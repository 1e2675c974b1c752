//! The one-shot startup sequence.
//!
//! Runs once before the steady-state tasks exist: poll until the link is up,
//! poll until an address is acquired, open the one TCP connection, establish
//! the one broker session, subscribe to the fixed two-topic set, and then
//! spawn the steady-state tasks. TCP and broker-connect failures are logged
//! and the sequence proceeds anyway; a subscribe failure is fatal to the
//! sequence. The surrounding runtime performs each network step and feeds
//! its outcome back in.

use vstd::prelude::*;
use crate::route::{led_topic, motor_topic, spec_led_topic, spec_motor_topic};

verus! {

/// Interval at which link and address acquisition are polled.
pub const STARTUP_POLL_MS: u64 = 500;

/// Broker port of the fixed endpoint.
pub const BROKER_PORT: u16 = 1883;

/// First octet of the fixed broker address.
pub const BROKER_ADDR_OCTET1: u8 = 10;

/// Second octet of the fixed broker address.
pub const BROKER_ADDR_OCTET2: u8 = 0;

/// Third octet of the fixed broker address.
pub const BROKER_ADDR_OCTET3: u8 = 10;

/// Fourth octet of the fixed broker address.
pub const BROKER_ADDR_OCTET4: u8 = 125;

/// MQTT protocol version of the session.
pub const MQTT_VERSION: u8 = 5;

/// Largest packet the session accepts, in bytes.
pub const MAX_PACKET_SIZE: u32 = 10_000;

/// Cap on the quality-of-service level asked for when subscribing.
pub const MAX_SUBSCRIBE_QOS: u8 = 1;

/// Where the startup sequence stands.
#[derive(Clone, Copy, PartialEq, Eq, Structural, Debug)]
pub enum StartupState {
    /// Polling until the link is up.
    WaitLink,
    /// Polling until an address is acquired.
    WaitAddress,
    /// Opening the one TCP connection.
    OpenSocket,
    /// Establishing the one broker session.
    ConnectBroker,
    /// Subscribing to the fixed two-topic set.
    Subscribe,
    /// Done: the steady-state tasks are to be spawned.
    Ready,
    /// A subscribe failure ended the sequence.
    Failed,
}

/// The outcome of the step the runtime just performed.
#[derive(Clone, Copy, PartialEq, Eq, Structural, Debug)]
pub enum StartupEvent {
    /// Whether the link is up.
    LinkIs(bool),
    /// Whether an address has been acquired.
    AddressIs(bool),
    /// Whether the TCP connect succeeded.
    SocketResult(bool),
    /// Whether the broker connect succeeded.
    BrokerResult(bool),
    /// Whether the subscribe succeeded.
    SubscribeResult(bool),
}

/// What the startup sequence does next.
#[derive(Clone, Copy, PartialEq, Eq, Structural, Debug)]
pub enum StartupAction {
    /// Poll the same condition again after the poll interval.
    PollAfter(u64),
    /// Perform the next step of the sequence.
    Proceed,
    /// Log the failure and perform the next step of the sequence anyway.
    LogAndProceed,
    /// Log the failure and end the sequence.
    Abort,
    /// Spawn the steady-state tasks.
    SpawnTasks,
}

/// The transition relation of the startup sequence.
pub open spec fn spec_startup_step(state: StartupState, event: StartupEvent) -> (
    StartupState,
    StartupAction,
) {
    match (state, event) {
        (StartupState::WaitLink, StartupEvent::LinkIs(false)) => (
            StartupState::WaitLink,
            StartupAction::PollAfter(STARTUP_POLL_MS),
        ),
        (StartupState::WaitLink, StartupEvent::LinkIs(true)) => (
            StartupState::WaitAddress,
            StartupAction::Proceed,
        ),
        (StartupState::WaitAddress, StartupEvent::AddressIs(false)) => (
            StartupState::WaitAddress,
            StartupAction::PollAfter(STARTUP_POLL_MS),
        ),
        (StartupState::WaitAddress, StartupEvent::AddressIs(true)) => (
            StartupState::OpenSocket,
            StartupAction::Proceed,
        ),
        (StartupState::OpenSocket, StartupEvent::SocketResult(ok)) => (
            StartupState::ConnectBroker,
            if ok {
                StartupAction::Proceed
            } else {
                StartupAction::LogAndProceed
            },
        ),
        (StartupState::ConnectBroker, StartupEvent::BrokerResult(ok)) => (
            StartupState::Subscribe,
            if ok {
                StartupAction::Proceed
            } else {
                StartupAction::LogAndProceed
            },
        ),
        (StartupState::Subscribe, StartupEvent::SubscribeResult(true)) => (
            StartupState::Ready,
            StartupAction::SpawnTasks,
        ),
        (StartupState::Subscribe, StartupEvent::SubscribeResult(false)) => (
            StartupState::Failed,
            StartupAction::Abort,
        ),
        (s, _) => (s, StartupAction::PollAfter(STARTUP_POLL_MS)),
    }
}

/// One step of the startup sequence.
///
/// Link and address are polled at the fixed interval until satisfied; a TCP
/// or broker-connect failure is logged and the sequence proceeds anyway; a
/// subscribe failure ends the sequence; a successful subscribe makes the
/// sequence spawn the steady-state tasks. An outcome that does not belong
/// to the current state leaves it unchanged.
pub fn startup_step(state: StartupState, event: StartupEvent) -> (r: (
    StartupState,
    StartupAction,
))
    ensures
        r == spec_startup_step(state, event),
{
    match (state, event) {
        (StartupState::WaitLink, StartupEvent::LinkIs(up)) => if up {
            (StartupState::WaitAddress, StartupAction::Proceed)
        } else {
            (StartupState::WaitLink, StartupAction::PollAfter(STARTUP_POLL_MS))
        },
        (StartupState::WaitAddress, StartupEvent::AddressIs(got)) => if got {
            (StartupState::OpenSocket, StartupAction::Proceed)
        } else {
            (StartupState::WaitAddress, StartupAction::PollAfter(STARTUP_POLL_MS))
        },
        (StartupState::OpenSocket, StartupEvent::SocketResult(ok)) => (
            StartupState::ConnectBroker,
            if ok {
                StartupAction::Proceed
            } else {
                StartupAction::LogAndProceed
            },
        ),
        (StartupState::ConnectBroker, StartupEvent::BrokerResult(ok)) => (
            StartupState::Subscribe,
            if ok {
                StartupAction::Proceed
            } else {
                StartupAction::LogAndProceed
            },
        ),
        (StartupState::Subscribe, StartupEvent::SubscribeResult(ok)) => if ok {
            (StartupState::Ready, StartupAction::SpawnTasks)
        } else {
            (StartupState::Failed, StartupAction::Abort)
        },
        (s, _) => (s, StartupAction::PollAfter(STARTUP_POLL_MS)),
    }
}

/// The fixed client identifier the session presents to the broker.
pub fn client_id() -> (s: &'static str)
    ensures
        s@ == "clientId-8rhWgBODClsdfsdfsdfsdfsdfsdfsdfsdf"@,
{
    "clientId-8rhWgBODClsdfsdfsdfsdfsdfsdfsdfsdf"
}

/// The fixed subscription set: exactly the two actuator topics, established
/// once right after session creation and immutable thereafter.
pub fn subscribed_topics() -> (topics: Vec<&'static str>)
    ensures
        topics@.len() == 2,
        topics@[0]@ == spec_led_topic(),
        topics@[1]@ == spec_motor_topic(),
{
    let mut topics: Vec<&'static str> = Vec::new();
    topics.push(led_topic());
    topics.push(motor_topic());
    topics
}

} // verus!
