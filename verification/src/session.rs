//! The MQTT session loop: message routing and keep-alive.
//!
//! The session loop owns the single broker session. Each iteration races a
//! blocking receive against a fixed deadline and acts on whichever resolves
//! first: an inbound message is routed to an actuator queue, a receive or
//! decode failure is logged, and a deadline sends one keep-alive ping. No
//! outcome terminates the loop or tears the session down; the next iteration
//! restarts the race from zero, so a delivered message implicitly resets the
//! ping timer.

use vstd::prelude::*;
use crate::queue::{CommandQueue, QUEUE_CAPACITY};
use crate::route::{route, RouteAction, spec_led_topic, spec_motor_topic, spec_start_token};

verus! {

/// The keep-alive deadline: a ping is sent after this long without an
/// inbound message.
pub const PING_INTERVAL_MS: u64 = 45_000;

/// How a protocol-level failure is classified when logged.
#[derive(Clone, Copy, PartialEq, Eq, Structural, Debug)]
pub enum ProtocolErrorKind {
    /// The transport under the session failed.
    Network,
    /// Any other protocol reason code.
    Other,
}

/// The outcome of one receive-versus-deadline race, as handed to the loop by
/// the runtime.
pub enum SessionEvent {
    /// The receive won: an inbound message with its topic and decoded text
    /// payload.
    Message(String, String),
    /// The receive won with a payload that is not valid text.
    MessageUndecodable,
    /// The receive won with a protocol-level error.
    ReceiveError(ProtocolErrorKind),
    /// The deadline won: no inbound message for the whole interval.
    Deadline,
}

/// What the loop does in reaction to one race outcome.
pub enum SessionAction {
    /// Send the payload to the LED command queue.
    DispatchLed(String),
    /// Send one trigger to the motor command queue.
    DispatchMotor,
    /// Drop the message: unknown topic, or a motor payload other than the
    /// start token.
    NoDispatch,
    /// Log the undecodable payload and carry on.
    LogDecodeError,
    /// Log the receive failure and carry on.
    LogReceiveError(ProtocolErrorKind),
    /// Send one keep-alive ping; its own outcome is only logged and never
    /// alters the loop.
    Ping,
}

/// The exact action one race outcome calls for.
pub open spec fn spec_session_action(ev: SessionEvent, a: SessionAction) -> bool {
    match ev {
        SessionEvent::Message(t, p) => {
            if t@ == spec_led_topic() {
                a matches SessionAction::DispatchLed(q) && q@ == p@
            } else if t@ == spec_motor_topic() && p@ == spec_start_token() {
                a == SessionAction::DispatchMotor
            } else {
                a == SessionAction::NoDispatch
            }
        },
        SessionEvent::MessageUndecodable => a == SessionAction::LogDecodeError,
        SessionEvent::ReceiveError(k) => a == SessionAction::LogReceiveError(k),
        SessionEvent::Deadline => a == SessionAction::Ping,
    }
}

/// One iteration of the session loop's decision: what to do with the
/// outcome of the receive-versus-deadline race. A ping is called for
/// exactly on a deadline, and every other outcome is dispatched, dropped or
/// logged as the routing rules say.
pub fn session_step(event: &SessionEvent) -> (a: SessionAction)
    ensures
        spec_session_action(*event, a),
        a is Ping <==> *event is Deadline,
{
    match event {
        SessionEvent::Message(topic, payload) => {
            match route(topic.as_str(), payload.as_str()) {
                RouteAction::SendLed(p) => SessionAction::DispatchLed(p),
                RouteAction::SendMotor => SessionAction::DispatchMotor,
                RouteAction::Ignore => SessionAction::NoDispatch,
            }
        },
        SessionEvent::MessageUndecodable => SessionAction::LogDecodeError,
        SessionEvent::ReceiveError(k) => SessionAction::LogReceiveError(*k),
        SessionEvent::Deadline => SessionAction::Ping,
    }
}

/// Perform the queue send an action calls for. The preconditions model the
/// backpressure suspension: the runtime resumes a full queue's producer only
/// once there is room.
pub fn dispatch(action: SessionAction, led_queue: &mut CommandQueue<String>,
    motor_queue: &mut CommandQueue<bool>)
    requires
        old(led_queue).inv(),
        old(motor_queue).inv(),
        old(led_queue)@.len() < QUEUE_CAPACITY,
        old(motor_queue)@.len() < QUEUE_CAPACITY,
    ensures
        final(led_queue).inv(),
        final(motor_queue).inv(),
        action matches SessionAction::DispatchLed(p) ==> final(led_queue)@ == old(
            led_queue)@.push(p) && final(motor_queue)@ == old(motor_queue)@,
        action is DispatchMotor ==> final(motor_queue)@ == old(motor_queue)@.push(true) && final(
            led_queue)@ == old(led_queue)@,
        !(action is DispatchLed) && !(action is DispatchMotor) ==> final(led_queue)@ == old(
            led_queue)@ && final(motor_queue)@ == old(motor_queue)@,
    {
    match action {
        SessionAction::DispatchLed(p) => led_queue.send(p),
        SessionAction::DispatchMotor => motor_queue.send(true),
        _ => (),
    }
}

/// The payloads a trace of race outcomes forwards to the LED queue, in
/// order: exactly the payloads of the messages on the LED topic.
pub open spec fn spec_led_sends(events: Seq<SessionEvent>) -> Seq<Seq<char>>
    decreases events.len(),
{
    if events.len() == 0 {
        Seq::empty()
    } else {
        let rest = spec_led_sends(events.drop_last());
        match events.last() {
            SessionEvent::Message(t, p) => if t@ == spec_led_topic() {
                rest.push(p@)
            } else {
                rest
            },
            _ => rest,
        }
    }
}

/// How many triggers a trace forwards to the motor queue: exactly one per
/// message on the motor topic whose payload is the start token.
pub open spec fn spec_motor_sends(events: Seq<SessionEvent>) -> nat
    decreases events.len(),
{
    if events.len() == 0 {
        0
    } else {
        spec_motor_sends(events.drop_last()) + (match events.last() {
            SessionEvent::Message(t, p) => if t@ == spec_motor_topic() && p@
                == spec_start_token() {
                1nat
            } else {
                0
            },
            _ => 0,
        })
    }
}

/// How many keep-alive pings a trace sends: exactly one per deadline.
pub open spec fn spec_ping_count(events: Seq<SessionEvent>) -> nat
    decreases events.len(),
{
    if events.len() == 0 {
        0
    } else {
        spec_ping_count(events.drop_last()) + (if events.last() is Deadline {
            1nat
        } else {
            0
        })
    }
}

/// How many failures a trace logs: receive errors and undecodable payloads,
/// each of which the loop survives.
pub open spec fn spec_error_count(events: Seq<SessionEvent>) -> nat
    decreases events.len(),
{
    if events.len() == 0 {
        0
    } else {
        spec_error_count(events.drop_last()) + (match events.last() {
            SessionEvent::ReceiveError(_) => 1nat,
            SessionEvent::MessageUndecodable => 1nat,
            _ => 0,
        })
    }
}

/// What a run of the session loop did.
pub struct SessionLog {
    /// Payloads forwarded to the LED queue, in send order.
    pub led_commands: Vec<String>,
    /// Triggers forwarded to the motor queue.
    pub motor_triggers: usize,
    /// Keep-alive pings sent.
    pub pings: usize,
    /// Receive and decode failures logged.
    pub errors_logged: usize,
}

/// Run the session loop over a trace of race outcomes. The loop survives
/// every outcome: each of the `events` is processed, errors are only
/// counted (logged), each deadline sends exactly one ping, and the queue
/// sends are exactly the ones the routing rules call for, in order.
pub fn run_session(events: &Vec<SessionEvent>) -> (log: SessionLog)
    ensures
        log.led_commands@.map_values(|s: String| s@) == spec_led_sends(events@),
        log.motor_triggers == spec_motor_sends(events@),
        log.pings == spec_ping_count(events@),
        log.errors_logged == spec_error_count(events@),
{
    let mut led_commands: Vec<String> = Vec::new();
    let mut motor_triggers: usize = 0;
    let mut pings: usize = 0;
    let mut errors_logged: usize = 0;
    let mut i: usize = 0;
    while i < events.len()
        invariant
            i <= events.len(),
            led_commands@.map_values(|s: String| s@) == spec_led_sends(events@.take(i as int)),
            motor_triggers == spec_motor_sends(events@.take(i as int)),
            pings == spec_ping_count(events@.take(i as int)),
            errors_logged == spec_error_count(events@.take(i as int)),
            motor_triggers <= i,
            pings <= i,
            errors_logged <= i,
        decreases events.len() - i,
    {
        proof {
            crate::route::lemma_topics_distinct();
            lemma_trace_counts_bounded(events@.take(i as int));
            assert(events@.take(i + 1 as int).drop_last() =~= events@.take(i as int));
        }
        match session_step(&events[i]) {
            SessionAction::DispatchLed(p) => {
                led_commands.push(p);
                proof {
                    assert(led_commands@.map_values(|s: String| s@) =~= spec_led_sends(
                        events@.take(i + 1 as int)));
                }
            },
            SessionAction::DispatchMotor => {
                motor_triggers = motor_triggers + 1;
            },
            SessionAction::Ping => {
                pings = pings + 1;
            },
            SessionAction::LogReceiveError(_) => {
                errors_logged = errors_logged + 1;
            },
            SessionAction::LogDecodeError => {
                errors_logged = errors_logged + 1;
            },
            SessionAction::NoDispatch => (),
        }
        i = i + 1;
    }
    proof {
        assert(events@.take(events@.len() as int) =~= events@);
    }
    SessionLog { led_commands, motor_triggers, pings, errors_logged }
}

/// Each trace count is at most the number of events, since one event
/// contributes at most one to it.
pub proof fn lemma_trace_counts_bounded(events: Seq<SessionEvent>)
    ensures
        spec_motor_sends(events) <= events.len(),
        spec_ping_count(events) <= events.len(),
        spec_error_count(events) <= events.len(),
    decreases events.len(),
{
    if events.len() > 0 {
        lemma_trace_counts_bounded(events.drop_last());
    }
}

/// One race outcome together with how long the race took to resolve.
pub struct TimedEvent {
    /// Milliseconds from the start of the race to its resolution.
    pub elapsed_ms: u64,
    /// The outcome.
    pub event: SessionEvent,
}

/// The race's contract with the runtime: a deadline resolves after exactly
/// the keep-alive interval, and an inbound completion (message, undecodable
/// payload or receive error) resolves no later than that, since otherwise
/// the deadline would have won the race.
pub open spec fn spec_race_shape(t: TimedEvent) -> bool {
    &&& (t.event is Deadline ==> t.elapsed_ms == PING_INTERVAL_MS)
    &&& (!(t.event is Deadline) ==> t.elapsed_ms <= PING_INTERVAL_MS)
}

/// A whole trace of race outcomes obeys the race's contract.
pub open spec fn spec_trace_shape(trace: Seq<TimedEvent>) -> bool {
    forall|i: int| 0 <= i < trace.len() ==> spec_race_shape(#[trigger] trace[i])
}

/// Keep-alive law: between two consecutive pings, either at least one
/// inbound receive completed (a message, an undecodable payload or a
/// protocol error), or the pings are back to back and the full keep-alive
/// interval elapsed between them. Together with the race's contract — no
/// iteration outlasts the interval — nothing is ever skipped for longer
/// than the interval plus one scheduling quantum.
pub proof fn lemma_ping_separation(trace: Seq<TimedEvent>, i: int, j: int)
    requires
        spec_trace_shape(trace),
        0 <= i < j < trace.len(),
        trace[i].event is Deadline,
        trace[j].event is Deadline,
        forall|k: int| i < k < j ==> !((#[trigger] trace[k]).event is Deadline),
    ensures
        (j == i + 1 && trace[j].elapsed_ms == PING_INTERVAL_MS) || (exists|k: int|
            i < k < j && !((#[trigger] trace[k]).event is Deadline)),
{
    if j == i + 1 {
        assert(spec_race_shape(trace[j]));
    } else {
        assert(i < i + 1 < j && !(trace[i + 1].event is Deadline));
    }
}

} // verus!
