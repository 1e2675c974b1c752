//! Topic-based routing of inbound messages.
//!
//! The session subscribes to exactly two topics: one carries LED color
//! tokens, the other motor triggers. Routing is by exact topic match; on the
//! motor topic only the exact literal `start` fires a trigger, and every
//! other topic or payload is dropped without effect.

use vstd::prelude::*;
use crate::text::str_eq;

verus! {

/// The topic carrying LED color tokens.
pub open spec fn spec_led_topic() -> Seq<char> {
    "led-color-esp32"@
}

/// The topic carrying motor triggers.
pub open spec fn spec_motor_topic() -> Seq<char> {
    "modor-esp32"@
}

/// The one payload on the motor topic that fires a trigger.
pub open spec fn spec_start_token() -> Seq<char> {
    "start"@
}

/// The topic carrying LED color tokens.
pub fn led_topic() -> (s: &'static str)
    ensures
        s@ == spec_led_topic(),
{
    "led-color-esp32"
}

/// The topic carrying motor triggers.
pub fn motor_topic() -> (s: &'static str)
    ensures
        s@ == spec_motor_topic(),
{
    "modor-esp32"
}

/// The one payload on the motor topic that fires a trigger.
pub fn start_token() -> (s: &'static str)
    ensures
        s@ == spec_start_token(),
{
    "start"
}

/// The two subscribed topics differ, so at most one routing rule applies to
/// any message.
pub proof fn lemma_topics_distinct()
    ensures
        spec_led_topic() != spec_motor_topic(),
{
    reveal_strlit("led-color-esp32");
    reveal_strlit("modor-esp32");
    assert(spec_led_topic().len() != spec_motor_topic().len());
}

/// What the session loop does with one inbound message.
#[derive(Debug)]
pub enum RouteAction {
    /// Forward the payload to the LED command queue.
    SendLed(String),
    /// Forward one trigger to the motor command queue.
    SendMotor,
    /// Drop the message without any queue send.
    Ignore,
}

/// Route one decoded inbound message to an actuator queue.
///
/// The LED topic forwards its payload verbatim; the motor topic forwards a
/// trigger only for the exact payload `start`; everything else is ignored.
pub fn route(topic: &str, payload: &str) -> (a: RouteAction)
    ensures
        topic@ == spec_led_topic() ==> (a matches RouteAction::SendLed(p) && p@ == payload@),
        topic@ == spec_motor_topic() && payload@ == spec_start_token()
            ==> a == RouteAction::SendMotor,
        topic@ == spec_motor_topic() && payload@ != spec_start_token()
            ==> a == RouteAction::Ignore,
        topic@ != spec_led_topic() && topic@ != spec_motor_topic() ==> a == RouteAction::Ignore,
{
    proof {
        lemma_topics_distinct();
    }
    if str_eq(topic, led_topic()) {
        RouteAction::SendLed(payload.to_owned())
    } else if str_eq(topic, motor_topic()) {
        if str_eq(payload, start_token()) {
            RouteAction::SendMotor
        } else {
            RouteAction::Ignore
        }
    } else {
        RouteAction::Ignore
    }
}

} // verus!
