use mavlink_server::flight_mode::{flight_mode_label, rover_mode_number};
use mavlink_server::gpio::{default_pin_configs, read_pin_result, GpioError, GpioPinType, PinReading};
use mavlink_server::protocol::{heartbeat_due, heartbeat_message, request_parameters, request_stream, HeartbeatData, OutboundMessage};
use mavlink_server::telemetry::summarize_heartbeat;
use mavlink_server::version::{version_document, version_document_from};

#[test]
fn fixed_messages() {
    assert_eq!(
        heartbeat_message(),
        OutboundMessage::Heartbeat(HeartbeatData { custom_mode: 0, mavtype: 2, autopilot: 3, base_mode: 0, system_status: 3, mavlink_version: 3 })
    );
    assert_eq!(request_parameters(), OutboundMessage::ParamRequestList { target_system: 1, target_component: 1 });
    assert_eq!(
        request_stream(),
        OutboundMessage::RequestDataStream { target_system: 1, target_component: 1, req_stream_id: 0, req_message_rate: 10, start_stop: 1 }
    );
}

#[test]
fn heartbeat_timing() {
    assert!(!heartbeat_due(0));
    assert!(!heartbeat_due(999));
    assert!(heartbeat_due(1000));
    assert!(heartbeat_due(5000));
}

#[test]
fn mode_names_round_trip() {
    for name in ["MANUAL", "ACRO", "STEERING", "HOLD", "LOITER", "FOLLOW", "SIMPLE", "DOCK", "CIRCLE", "AUTO", "RTL", "SMART_RTL", "GUIDED", "INITIALISING"] {
        let n = rover_mode_number(&name.to_string()).unwrap();
        assert_eq!(flight_mode_label(3, n as u32), name);
    }
    assert_eq!(rover_mode_number(&"STEERING".to_string()), Some(3));
    assert_eq!(flight_mode_label(3, 2), "UNKNOWN");
    assert_eq!(flight_mode_label(12, 0), "UNKNOWN");
    assert_eq!(rover_mode_number(&"UNKNOWN".to_string()), None);
}

#[test]
fn own_heartbeat_reads_as_standby_quadrotor() {
    let hb = match heartbeat_message() {
        OutboundMessage::Heartbeat(hb) => hb,
        _ => unreachable!(),
    };
    let s = summarize_heartbeat(&hb);
    assert_eq!(s.flight_mode, "MANUAL");
    assert_eq!(s.vehicle_type, "四旋翼");
    assert_eq!(s.system_status, "待机");
    assert_eq!(s.arm_status, "加锁");
    assert_eq!(s.mode_type, "手动");
    assert!(!s.is_armed && !s.is_auto && s.is_standby);
    assert!(!s.manual_input_enabled && !s.custom_mode_enabled && !s.guided_enabled && !s.stabilize_enabled && !s.hil_enabled);
}

#[test]
fn armed_auto_rover_heartbeat() {
    // ARMED | AUTO | CUSTOM_MODE | GUIDED | STABILIZE | HIL | MANUAL_INPUT
    let hb = HeartbeatData { custom_mode: 10, mavtype: 10, autopilot: 3, base_mode: 0b1111_1101, system_status: 4, mavlink_version: 3 };
    let s = summarize_heartbeat(&hb);
    assert_eq!(s.flight_mode, "AUTO");
    assert_eq!(s.vehicle_type, "地面车辆");
    assert_eq!(s.system_status, "活动");
    assert_eq!(s.arm_status, "解锁");
    assert_eq!(s.mode_type, "自动");
    assert!(s.is_armed && s.is_auto && !s.is_standby);
    assert!(s.manual_input_enabled && s.custom_mode_enabled && s.guided_enabled && s.stabilize_enabled && s.hil_enabled);
    let hb = HeartbeatData { custom_mode: 0, mavtype: 99, autopilot: 12, base_mode: 128, system_status: 8, mavlink_version: 3 };
    let s = summarize_heartbeat(&hb);
    assert_eq!((s.flight_mode, s.vehicle_type, s.system_status), ("UNKNOWN", "未知类型", "未知状态"));
    assert!(s.is_armed && !s.is_auto && !s.is_standby);
}

#[test]
fn default_pins() {
    let pins = default_pin_configs();
    let summary: Vec<(u8, &str, GpioPinType)> = pins.iter().map(|p| (p.pin_number, p.pin_name.as_str(), p.pin_type)).collect();
    assert_eq!(
        summary,
        vec![(17, "LED_RED", GpioPinType::Output), (27, "LED_GREEN", GpioPinType::Output), (18, "BUTTON", GpioPinType::Input)]
    );
}

#[test]
fn pin_read_outcomes() {
    assert_eq!(read_pin_result(18, Some(PinReading { pin: 18, value: true })), Ok(true));
    assert_eq!(read_pin_result(18, Some(PinReading { pin: 18, value: false })), Ok(false));
    assert_eq!(read_pin_result(18, Some(PinReading { pin: 17, value: true })), Err(GpioError::WrongPin));
    assert_eq!(read_pin_result(18, None), Err(GpioError::Timeout));
    assert_eq!(GpioError::Timeout.message(), "读取引脚超时");
    assert_eq!(GpioError::WrongPin.message(), "收到错误的引脚响应");
    assert_eq!(GpioError::InvalidDutyCycle.message(), "PWM占空比必须在0.0到1.0之间");
}

#[test]
fn version_document_reencodes_or_falls_back() {
    assert_eq!(version_document("{ \"version\" : \"0.1.1\", \"count\": 19 }"), "{\"count\":19,\"version\":\"0.1.1\"}");
    assert_eq!(version_document("not json"), "{\"commits\":[],\"count\":0,\"version\":\"0.0.0\"}");
    assert_eq!(version_document(""), "{\"commits\":[],\"count\":0,\"version\":\"0.0.0\"}");
    assert_eq!(version_document_from(Some("x".to_string())), "x");
}
