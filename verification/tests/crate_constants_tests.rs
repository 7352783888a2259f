use mavlink::ardupilotmega::{MavAutopilot, MavCmd, MavFrame, MavModeFlag, MavState, MavType, RoverMode};
use mavlink_server::flight_mode::{rover_mode_number, MAV_AUTOPILOT_ARDUPILOTMEGA};
use mavlink_server::protocol::{MAV_CMD_COMPONENT_ARM_DISARM, MAV_CMD_DO_SET_MODE, MAV_CMD_NAV_WAYPOINT, MAV_FRAME_GLOBAL_RELATIVE_ALT};
use mavlink_server::telemetry::{
    summarize_heartbeat, MAV_MODE_FLAG_AUTO_ENABLED, MAV_MODE_FLAG_CUSTOM_MODE_ENABLED, MAV_MODE_FLAG_GUIDED_ENABLED,
    MAV_MODE_FLAG_HIL_ENABLED, MAV_MODE_FLAG_MANUAL_INPUT_ENABLED, MAV_MODE_FLAG_SAFETY_ARMED, MAV_MODE_FLAG_STABILIZE_ENABLED,
};
use mavlink_server::protocol::HeartbeatData;

#[test]
fn rover_mode_numbers_match_the_dialect() {
    let table = [
        ("MANUAL", RoverMode::ROVER_MODE_MANUAL),
        ("ACRO", RoverMode::ROVER_MODE_ACRO),
        ("STEERING", RoverMode::ROVER_MODE_STEERING),
        ("HOLD", RoverMode::ROVER_MODE_HOLD),
        ("LOITER", RoverMode::ROVER_MODE_LOITER),
        ("FOLLOW", RoverMode::ROVER_MODE_FOLLOW),
        ("SIMPLE", RoverMode::ROVER_MODE_SIMPLE),
        ("DOCK", RoverMode::ROVER_MODE_DOCK),
        ("CIRCLE", RoverMode::ROVER_MODE_CIRCLE),
        ("AUTO", RoverMode::ROVER_MODE_AUTO),
        ("RTL", RoverMode::ROVER_MODE_RTL),
        ("SMART_RTL", RoverMode::ROVER_MODE_SMART_RTL),
        ("GUIDED", RoverMode::ROVER_MODE_GUIDED),
        ("INITIALISING", RoverMode::ROVER_MODE_INITIALIZING),
    ];
    for (name, mode) in table {
        assert_eq!(rover_mode_number(&name.to_string()), Some(mode as u16), "{name}");
    }
}

#[test]
fn command_and_frame_numbers_match_the_dialect() {
    assert_eq!(MavCmd::MAV_CMD_COMPONENT_ARM_DISARM as u16, MAV_CMD_COMPONENT_ARM_DISARM);
    assert_eq!(MavCmd::MAV_CMD_DO_SET_MODE as u16, MAV_CMD_DO_SET_MODE);
    assert_eq!(MavCmd::MAV_CMD_NAV_WAYPOINT as u16, MAV_CMD_NAV_WAYPOINT);
    assert_eq!(MavFrame::MAV_FRAME_GLOBAL_RELATIVE_ALT as u8, MAV_FRAME_GLOBAL_RELATIVE_ALT);
    assert_eq!(MavAutopilot::MAV_AUTOPILOT_ARDUPILOTMEGA as u8, MAV_AUTOPILOT_ARDUPILOTMEGA);
}

#[test]
fn mode_flags_match_the_dialect() {
    assert_eq!(MavModeFlag::MAV_MODE_FLAG_SAFETY_ARMED.bits(), MAV_MODE_FLAG_SAFETY_ARMED);
    assert_eq!(MavModeFlag::MAV_MODE_FLAG_AUTO_ENABLED.bits(), MAV_MODE_FLAG_AUTO_ENABLED);
    assert_eq!(MavModeFlag::MAV_MODE_FLAG_CUSTOM_MODE_ENABLED.bits(), MAV_MODE_FLAG_CUSTOM_MODE_ENABLED);
    assert_eq!(MavModeFlag::MAV_MODE_FLAG_GUIDED_ENABLED.bits(), MAV_MODE_FLAG_GUIDED_ENABLED);
    assert_eq!(MavModeFlag::MAV_MODE_FLAG_STABILIZE_ENABLED.bits(), MAV_MODE_FLAG_STABILIZE_ENABLED);
    assert_eq!(MavModeFlag::MAV_MODE_FLAG_HIL_ENABLED.bits(), MAV_MODE_FLAG_HIL_ENABLED);
    assert_eq!(MavModeFlag::MAV_MODE_FLAG_MANUAL_INPUT_ENABLED.bits(), MAV_MODE_FLAG_MANUAL_INPUT_ENABLED);
}

#[test]
fn heartbeat_names_follow_the_dialect_numbers() {
    let hb = HeartbeatData {
        custom_mode: RoverMode::ROVER_MODE_HOLD as u32,
        mavtype: MavType::MAV_TYPE_COAXIAL as u8,
        autopilot: MavAutopilot::MAV_AUTOPILOT_ARDUPILOTMEGA as u8,
        base_mode: MavModeFlag::MAV_MODE_FLAG_SAFETY_ARMED.bits(),
        system_status: MavState::MAV_STATE_EMERGENCY as u8,
        mavlink_version: 3,
    };
    let s = summarize_heartbeat(&hb);
    assert_eq!((s.flight_mode, s.vehicle_type, s.system_status), ("HOLD", "共轴直升机", "紧急状态"));
    assert!(s.is_armed);
    let hb = HeartbeatData { mavtype: MavType::MAV_TYPE_FIXED_WING as u8, system_status: MavState::MAV_STATE_BOOT as u8, ..hb };
    let s = summarize_heartbeat(&hb);
    assert_eq!((s.vehicle_type, s.system_status), ("固定翼", "启动中"));
}
