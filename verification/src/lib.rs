//! Mission and command logic of a MAVLink ground bridge: the waypoint
//! upload/download state machine that talks to a flight controller, the
//! forwarder that decides what is published about missions, the heartbeat
//! summary that is shown to operators, and the GPIO pin table.

pub mod protocol;
pub mod flight_mode;
pub mod actor;
pub mod mission_laws;
pub mod telemetry;
pub mod forwarder;
pub mod gpio;
pub mod version;
