use mqtt_stepper_led::modor::{
    motor_task_step, phase_pattern, step_sequence, PhasePattern, FULL_ROTATION_STEPS,
};
use mqtt_stepper_led::startup::{
    client_id, startup_step, subscribed_topics, StartupAction, StartupEvent, StartupState,
    BROKER_ADDR_OCTET1, BROKER_ADDR_OCTET2, BROKER_ADDR_OCTET3, BROKER_ADDR_OCTET4, BROKER_PORT,
    MAX_PACKET_SIZE, MAX_SUBSCRIBE_QOS, MQTT_VERSION, STARTUP_POLL_MS,
};
use mqtt_stepper_led::supervisor::{
    supervisor_step, SupervisorAction, SupervisorEvent, SupervisorState, RECONNECT_COOLDOWN_MS,
};

#[test]
fn disconnect_while_connected_waits_then_reconnects_once() {
    // A disconnect event while Connected: wait the 5000 ms cooldown, then
    // exactly one new association attempt.
    let (s1, a1) = supervisor_step(
        SupervisorState::Connected,
        SupervisorEvent::LinkLost,
        true,
    );
    assert_eq!(s1, SupervisorState::Disconnected);
    assert_eq!(a1, SupervisorAction::Wait(5_000));
    let (s2, a2) = supervisor_step(s1, SupervisorEvent::CooldownElapsed, true);
    assert_eq!(s2, SupervisorState::Connecting);
    assert_eq!(a2, SupervisorAction::Connect);
    // Success puts the supervisor back to waiting for the next disconnect;
    // no further attempt without a new event.
    let (s3, a3) = supervisor_step(s2, SupervisorEvent::ConnectResult(true), true);
    assert_eq!(s3, SupervisorState::Connected);
    assert_eq!(a3, SupervisorAction::AwaitDisconnect);
}

#[test]
fn failed_association_retries_after_cooldown() {
    let (s1, a1) = supervisor_step(
        SupervisorState::Connecting,
        SupervisorEvent::ConnectResult(false),
        true,
    );
    assert_eq!(s1, SupervisorState::Disconnected);
    assert_eq!(a1, SupervisorAction::Wait(RECONNECT_COOLDOWN_MS));
    let (s2, a2) = supervisor_step(s1, SupervisorEvent::CooldownElapsed, true);
    assert_eq!(s2, SupervisorState::Connecting);
    assert_eq!(a2, SupervisorAction::Connect);
}

#[test]
fn unstarted_radio_is_configured_and_started_first() {
    let (s1, a1) = supervisor_step(SupervisorState::Idle, SupervisorEvent::Tick, false);
    assert_eq!(s1, SupervisorState::Starting);
    assert_eq!(a1, SupervisorAction::ConfigureAndStart);
    let (s2, a2) = supervisor_step(s1, SupervisorEvent::Started, false);
    assert_eq!(s2, SupervisorState::Connecting);
    assert_eq!(a2, SupervisorAction::Connect);
}

#[test]
fn cooldown_is_five_seconds() {
    assert_eq!(RECONNECT_COOLDOWN_MS, 5_000);
}

#[test]
fn startup_polls_until_link_and_address() {
    let (s1, a1) = startup_step(StartupState::WaitLink, StartupEvent::LinkIs(false));
    assert_eq!(s1, StartupState::WaitLink);
    assert_eq!(a1, StartupAction::PollAfter(500));
    let (s2, a2) = startup_step(StartupState::WaitLink, StartupEvent::LinkIs(true));
    assert_eq!(s2, StartupState::WaitAddress);
    assert_eq!(a2, StartupAction::Proceed);
    let (s3, a3) = startup_step(s2, StartupEvent::AddressIs(false));
    assert_eq!(s3, StartupState::WaitAddress);
    assert_eq!(a3, StartupAction::PollAfter(STARTUP_POLL_MS));
    let (s4, a4) = startup_step(s3, StartupEvent::AddressIs(true));
    assert_eq!(s4, StartupState::OpenSocket);
    assert_eq!(a4, StartupAction::Proceed);
}

#[test]
fn startup_proceeds_past_socket_and_broker_failures() {
    let (s1, a1) = startup_step(StartupState::OpenSocket, StartupEvent::SocketResult(false));
    assert_eq!(s1, StartupState::ConnectBroker);
    assert_eq!(a1, StartupAction::LogAndProceed);
    let (s2, a2) = startup_step(s1, StartupEvent::BrokerResult(false));
    assert_eq!(s2, StartupState::Subscribe);
    assert_eq!(a2, StartupAction::LogAndProceed);
}

#[test]
fn subscribe_failure_is_fatal_to_startup() {
    let (s, a) = startup_step(StartupState::Subscribe, StartupEvent::SubscribeResult(false));
    assert_eq!(s, StartupState::Failed);
    assert_eq!(a, StartupAction::Abort);
}

#[test]
fn successful_startup_spawns_the_tasks() {
    let (s1, a1) = startup_step(StartupState::OpenSocket, StartupEvent::SocketResult(true));
    assert_eq!(s1, StartupState::ConnectBroker);
    assert_eq!(a1, StartupAction::Proceed);
    let (s2, a2) = startup_step(s1, StartupEvent::BrokerResult(true));
    assert_eq!(s2, StartupState::Subscribe);
    assert_eq!(a2, StartupAction::Proceed);
    let (s3, a3) = startup_step(s2, StartupEvent::SubscribeResult(true));
    assert_eq!(s3, StartupState::Ready);
    assert_eq!(a3, StartupAction::SpawnTasks);
}

#[test]
fn subscription_set_is_the_two_fixed_topics() {
    let topics = subscribed_topics();
    assert_eq!(topics, vec!["led-color-esp32", "modor-esp32"]);
}

#[test]
fn session_parameters_match_the_broker_contract() {
    assert_eq!(BROKER_PORT, 1883);
    assert_eq!(MQTT_VERSION, 5);
    assert_eq!(MAX_PACKET_SIZE, 10_000);
    assert_eq!(MAX_SUBSCRIBE_QOS, 1);
    assert_eq!(
        (BROKER_ADDR_OCTET1, BROKER_ADDR_OCTET2, BROKER_ADDR_OCTET3, BROKER_ADDR_OCTET4),
        (10, 0, 10, 125)
    );
    assert_eq!(client_id(), "clientId-8rhWgBODClsdfsdfsdfsdfsdfsdfsdfsdf");
}

#[test]
fn trigger_runs_one_fixed_cycle() {
    assert_eq!(motor_task_step(true), Some(FULL_ROTATION_STEPS));
    assert_eq!(motor_task_step(true), Some(512));
    assert_eq!(motor_task_step(false), None);
}

#[test]
fn step_sequence_is_rotating_one_hot() {
    let phases = step_sequence(1);
    assert_eq!(phases.len(), 4);
    assert_eq!(phases[0], PhasePattern { coil1: true, coil2: false, coil3: false, coil4: false });
    assert_eq!(phases[1], PhasePattern { coil1: false, coil2: true, coil3: false, coil4: false });
    assert_eq!(phases[2], PhasePattern { coil1: false, coil2: false, coil3: true, coil4: false });
    assert_eq!(phases[3], PhasePattern { coil1: false, coil2: false, coil3: false, coil4: true });
}

#[test]
fn full_rotation_drives_four_phases_per_step() {
    let phases = step_sequence(FULL_ROTATION_STEPS);
    assert_eq!(phases.len(), 4 * 512);
    let mut k: usize = 0;
    while k < phases.len() {
        assert_eq!(phases[k], phase_pattern(k));
        let lit = [phases[k].coil1, phases[k].coil2, phases[k].coil3, phases[k].coil4]
            .iter()
            .filter(|level| **level)
            .count();
        assert_eq!(lit, 1);
        k += 1;
    }
}
