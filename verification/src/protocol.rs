//! Plain-value forms of the MAVLink messages that the bridge reads and writes.
//!
//! Coordinates travel as MAVLink's own integers (degrees scaled by 1e7) and the
//! altitude as the bit pattern of the `f32` that MAVLink carries, so that a
//! waypoint is moved through the bridge without any rounding.

use vstd::prelude::*;

verus! {

/// System id of the flight controller that commands are addressed to.
pub const DEFAULT_TARGET_SYSTEM_ID: u8 = 1;

/// Component id of the flight controller that commands are addressed to.
pub const DEFAULT_TARGET_COMPONENT_ID: u8 = 1;

/// `MAV_FRAME_GLOBAL_RELATIVE_ALT`: the frame in which uploaded waypoints are given.
pub const MAV_FRAME_GLOBAL_RELATIVE_ALT: u8 = 3;

/// `MAV_CMD_NAV_WAYPOINT`: the command of every uploaded mission item.
pub const MAV_CMD_NAV_WAYPOINT: u16 = 16;

/// `MAV_CMD_DO_SET_MODE`.
pub const MAV_CMD_DO_SET_MODE: u16 = 176;

/// `MAV_CMD_COMPONENT_ARM_DISARM`.
pub const MAV_CMD_COMPONENT_ARM_DISARM: u16 = 400;

/// One waypoint of a mission.
#[derive(Clone, Copy, Debug, PartialEq, Eq, Structural)]
pub struct Waypoint {
    /// Sequence number given by whoever produced the waypoint.
    pub seq: u16,
    /// Latitude in degrees times 1e7.
    pub lat_e7: i32,
    /// Longitude in degrees times 1e7.
    pub lon_e7: i32,
    /// Bit pattern of the altitude (an IEEE-754 single, metres).
    pub alt_bits: u32,
}

/// Notice that the flight controller asked for the waypoint `seq` during an upload.
#[derive(Clone, Copy, Debug, PartialEq, Eq, Structural)]
pub struct WaypointWrite {
    pub seq: u16,
}

/// What the bridge distinguishes among the messages that arrive from the vehicle.
#[derive(Clone, Copy, Debug, PartialEq, Eq, Structural)]
pub enum InboundMessage {
    /// `MISSION_COUNT`.
    MissionCount { count: u16 },
    /// `MISSION_ITEM_INT`; `z_bits` is the bit pattern of the altitude.
    MissionItemInt { seq: u16, x: i32, y: i32, z_bits: u32 },
    /// `MISSION_REQUEST_INT`.
    MissionRequestInt { seq: u16 },
    /// The older `MISSION_REQUEST`.
    MissionRequest { seq: u16 },
    /// `MISSION_ACK`.
    MissionAck,
    /// `MISSION_CLEAR_ALL`.
    MissionClearAll,
    /// Any other message (heartbeat, position, attitude, ...).
    Other,
}

/// Fields of a `HEARTBEAT`, each enum given by its MAVLink number.
#[derive(Clone, Copy, Debug, PartialEq, Eq, Structural)]
pub struct HeartbeatData {
    pub custom_mode: u32,
    pub mavtype: u8,
    pub autopilot: u8,
    pub base_mode: u8,
    pub system_status: u8,
    pub mavlink_version: u8,
}

/// A message that the bridge sends to the vehicle.
///
/// `MissionItemInt` stands for a `MISSION_ITEM_INT` whose `param1`..`param4`
/// are zero; `CommandLong` for a `COMMAND_LONG` whose `param1` and `param2`
/// hold the given whole numbers and whose `param3`..`param7` are zero.
#[derive(Clone, Copy, Debug, PartialEq, Eq, Structural)]
pub enum OutboundMessage {
    MissionRequestInt { target_system: u8, target_component: u8, seq: u16 },
    MissionItemInt {
        target_system: u8,
        target_component: u8,
        seq: u16,
        frame: u8,
        command: u16,
        current: u8,
        autocontinue: u8,
        x: i32,
        y: i32,
        z_bits: u32,
    },
    MissionCount { target_system: u8, target_component: u8, count: u16 },
    MissionClearAll { target_system: u8, target_component: u8 },
    MissionRequestList { target_system: u8, target_component: u8 },
    CommandLong {
        target_system: u8,
        target_component: u8,
        command: u16,
        confirmation: u8,
        param1: u16,
        param2: u16,
    },
    Heartbeat(HeartbeatData),
    ParamRequestList { target_system: u8, target_component: u8 },
    RequestDataStream {
        target_system: u8,
        target_component: u8,
        req_stream_id: u8,
        req_message_rate: u16,
        start_stop: u8,
    },
}

impl OutboundMessage {
    /// Whether the message belongs to the mission protocol (as opposed to a
    /// command or a periodic message).
    pub open spec fn spec_is_mission_message(&self) -> bool {
        ||| self is MissionRequestInt
        ||| self is MissionItemInt
        ||| self is MissionCount
        ||| self is MissionClearAll
        ||| self is MissionRequestList
    }

    #[verifier::when_used_as_spec(spec_is_mission_message)]
    pub fn is_mission_message(&self) -> (r: bool)
        ensures
            r == self.spec_is_mission_message(),
    {
        match self {
            OutboundMessage::MissionRequestInt { .. } => true,
            OutboundMessage::MissionItemInt { .. } => true,
            OutboundMessage::MissionCount { .. } => true,
            OutboundMessage::MissionClearAll { .. } => true,
            OutboundMessage::MissionRequestList { .. } => true,
            _ => false,
        }
    }
}

/// `MISSION_REQUEST_INT` for item `seq`, addressed to the default target.
pub open spec fn request_item_message(seq: u16) -> OutboundMessage {
    OutboundMessage::MissionRequestInt {
        target_system: DEFAULT_TARGET_SYSTEM_ID,
        target_component: DEFAULT_TARGET_COMPONENT_ID,
        seq,
    }
}

/// The `MISSION_ITEM_INT` that uploads `wp` as mission item `seq`: a navigation
/// waypoint in the relative-altitude frame, marked current when it is the first.
pub open spec fn mission_item_message(seq: u16, wp: Waypoint) -> OutboundMessage {
    OutboundMessage::MissionItemInt {
        target_system: DEFAULT_TARGET_SYSTEM_ID,
        target_component: DEFAULT_TARGET_COMPONENT_ID,
        seq,
        frame: MAV_FRAME_GLOBAL_RELATIVE_ALT,
        command: MAV_CMD_NAV_WAYPOINT,
        current: if seq == 0 { 1u8 } else { 0u8 },
        autocontinue: 1,
        x: wp.lat_e7,
        y: wp.lon_e7,
        z_bits: wp.alt_bits,
    }
}

/// `MISSION_COUNT` announcing `count` items to the default target.
pub open spec fn mission_count_message(count: u16) -> OutboundMessage {
    OutboundMessage::MissionCount {
        target_system: DEFAULT_TARGET_SYSTEM_ID,
        target_component: DEFAULT_TARGET_COMPONENT_ID,
        count,
    }
}

/// `MISSION_CLEAR_ALL` to the default target.
pub open spec fn clear_all_message() -> OutboundMessage {
    OutboundMessage::MissionClearAll {
        target_system: DEFAULT_TARGET_SYSTEM_ID,
        target_component: DEFAULT_TARGET_COMPONENT_ID,
    }
}

/// `MISSION_REQUEST_LIST` to the default target.
pub open spec fn request_list_message() -> OutboundMessage {
    OutboundMessage::MissionRequestList {
        target_system: DEFAULT_TARGET_SYSTEM_ID,
        target_component: DEFAULT_TARGET_COMPONENT_ID,
    }
}

/// The waypoint that a received `MISSION_ITEM_INT` describes.
pub open spec fn waypoint_from_item(seq: u16, x: i32, y: i32, z_bits: u32) -> Waypoint {
    Waypoint { seq, lat_e7: x, lon_e7: y, alt_bits: z_bits }
}

/// Builds [`request_item_message`].
pub fn build_request_item(seq: u16) -> (m: OutboundMessage)
    ensures
        m == request_item_message(seq),
{
    OutboundMessage::MissionRequestInt {
        target_system: DEFAULT_TARGET_SYSTEM_ID,
        target_component: DEFAULT_TARGET_COMPONENT_ID,
        seq,
    }
}

/// Builds [`mission_item_message`].
pub fn build_mission_item(seq: u16, wp: Waypoint) -> (m: OutboundMessage)
    ensures
        m == mission_item_message(seq, wp),
{
    OutboundMessage::MissionItemInt {
        target_system: DEFAULT_TARGET_SYSTEM_ID,
        target_component: DEFAULT_TARGET_COMPONENT_ID,
        seq,
        frame: MAV_FRAME_GLOBAL_RELATIVE_ALT,
        command: MAV_CMD_NAV_WAYPOINT,
        current: if seq == 0 { 1u8 } else { 0u8 },
        autocontinue: 1,
        x: wp.lat_e7,
        y: wp.lon_e7,
        z_bits: wp.alt_bits,
    }
}

/// Builds [`mission_count_message`].
pub fn build_mission_count(count: u16) -> (m: OutboundMessage)
    ensures
        m == mission_count_message(count),
{
    OutboundMessage::MissionCount {
        target_system: DEFAULT_TARGET_SYSTEM_ID,
        target_component: DEFAULT_TARGET_COMPONENT_ID,
        count,
    }
}

/// Builds [`clear_all_message`].
pub fn build_clear_all() -> (m: OutboundMessage)
    ensures
        m == clear_all_message(),
{
    OutboundMessage::MissionClearAll {
        target_system: DEFAULT_TARGET_SYSTEM_ID,
        target_component: DEFAULT_TARGET_COMPONENT_ID,
    }
}

/// Builds [`request_list_message`].
pub fn build_request_list() -> (m: OutboundMessage)
    ensures
        m == request_list_message(),
{
    OutboundMessage::MissionRequestList {
        target_system: DEFAULT_TARGET_SYSTEM_ID,
        target_component: DEFAULT_TARGET_COMPONENT_ID,
    }
}

/// Builds [`waypoint_from_item`].
pub fn build_waypoint(seq: u16, x: i32, y: i32, z_bits: u32) -> (w: Waypoint)
    ensures
        w == waypoint_from_item(seq, x, y, z_bits),
{
    Waypoint { seq, lat_e7: x, lon_e7: y, alt_bits: z_bits }
}

/// Milliseconds between two heartbeats that the bridge sends.
pub const HEARTBEAT_INTERVAL_MS: u128 = 1000;

/// Whether a heartbeat is due, `elapsed_ms` after the last one.
pub fn heartbeat_due(elapsed_ms: u128) -> (due: bool)
    ensures
        due == (elapsed_ms >= HEARTBEAT_INTERVAL_MS),
{
    elapsed_ms >= HEARTBEAT_INTERVAL_MS
}

/// The heartbeat that the bridge sends about itself: a quadrotor driven by an
/// ArduPilot autopilot, no mode flags set, on standby, MAVLink version 3.
pub fn heartbeat_message() -> (m: OutboundMessage)
    ensures
        m == OutboundMessage::Heartbeat(
            HeartbeatData {
                custom_mode: 0,
                mavtype: 2,
                autopilot: 3,
                base_mode: 0,
                system_status: 3,
                mavlink_version: 3,
            },
        ),
{
    OutboundMessage::Heartbeat(
        HeartbeatData {
            custom_mode: 0,
            mavtype: 2,
            autopilot: 3,
            base_mode: 0,
            system_status: 3,
            mavlink_version: 3,
        },
    )
}

/// `PARAM_REQUEST_LIST` to the default target: asks for every parameter.
pub fn request_parameters() -> (m: OutboundMessage)
    ensures
        m == (OutboundMessage::ParamRequestList {
            target_system: DEFAULT_TARGET_SYSTEM_ID,
            target_component: DEFAULT_TARGET_COMPONENT_ID,
        }),
{
    OutboundMessage::ParamRequestList {
        target_system: DEFAULT_TARGET_SYSTEM_ID,
        target_component: DEFAULT_TARGET_COMPONENT_ID,
    }
}

/// `REQUEST_DATA_STREAM` to the default target: starts all streams (id 0) at 10 Hz.
pub fn request_stream() -> (m: OutboundMessage)
    ensures
        m == (OutboundMessage::RequestDataStream {
            target_system: DEFAULT_TARGET_SYSTEM_ID,
            target_component: DEFAULT_TARGET_COMPONENT_ID,
            req_stream_id: 0,
            req_message_rate: 10,
            start_stop: 1,
        }),
{
    OutboundMessage::RequestDataStream {
        target_system: DEFAULT_TARGET_SYSTEM_ID,
        target_component: DEFAULT_TARGET_COMPONENT_ID,
        req_stream_id: 0,
        req_message_rate: 10,
        start_stop: 1,
    }
}

} // verus!
