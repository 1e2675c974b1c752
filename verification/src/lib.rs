//! Core logic of an MQTT-to-actuator bridge: the message-routing and
//! keep-alive session loop, the bounded command queues that decouple network
//! traffic from actuator work, the Wi-Fi connectivity supervisor, the startup
//! sequence, and the two actuator task decision functions.
//!
//! Everything here is pure decision logic: the surrounding runtime performs
//! the network I/O, timers and hardware driver calls and feeds the outcomes
//! back in as plain values.

pub mod led;
pub mod modor;
pub mod queue;
pub mod route;
pub mod session;
pub mod startup;
pub mod supervisor;
pub mod text;
