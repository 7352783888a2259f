use mavlink_server::protocol::HeartbeatData;
use mavlink_server::telemetry::write_heartbeat_document;
use serde_json::Value;

fn obj(pairs: Vec<(&str, Value)>) -> Value {
    let mut m = serde_json::Map::new();
    for (k, v) in pairs {
        m.insert(k.to_string(), v);
    }
    Value::Object(m)
}

/// The document as serde_json writes the value the bridge describes.
fn expected(sys: u8, comp: u8, seq: u8, hb: &HeartbeatData, autopilot: &str, names: (&str, &str, &str, &str, &str), flags: [bool; 9]) -> String {
    let (flight_mode, vehicle_type, system_status, arm_status, mode_type) = names;
    let [is_armed, is_auto, is_standby, manual, custom, guided, stabilize, hil, auto] = flags;
    let v = obj(vec![
        ("header", obj(vec![("system_id", sys.into()), ("component_id", comp.into()), ("sequence", seq.into())])),
        ("message_type", "HEARTBEAT".into()),
        (
            "data",
            obj(vec![
                ("custom_mode", hb.custom_mode.into()),
                ("flight_mode", flight_mode.into()),
                ("vehicle_type", vehicle_type.into()),
                ("autopilot", autopilot.into()),
                (
                    "base_mode",
                    obj(vec![
                        ("manual_input_enabled", manual.into()),
                        ("custom_mode_enabled", custom.into()),
                        ("auto_enabled", auto.into()),
                        ("guided_enabled", guided.into()),
                        ("stabilize_enabled", stabilize.into()),
                        ("hil_enabled", hil.into()),
                    ]),
                ),
                ("system_status", system_status.into()),
                ("mavlink_version", hb.mavlink_version.into()),
                ("arm_status", arm_status.into()),
                ("is_armed", is_armed.into()),
                ("mode_type", mode_type.into()),
                ("is_auto", is_auto.into()),
                ("is_standby", is_standby.into()),
            ]),
        ),
    ]);
    serde_json::to_string(&v).unwrap()
}

#[test]
fn standby_heartbeat_document_matches_serde_json() {
    let hb = HeartbeatData { custom_mode: 0, mavtype: 2, autopilot: 3, base_mode: 0, system_status: 3, mavlink_version: 3 };
    let doc = write_heartbeat_document(1, 1, 0, &hb, "MAV_AUTOPILOT_ARDUPILOTMEGA");
    let want = expected(1, 1, 0, &hb, "MAV_AUTOPILOT_ARDUPILOTMEGA", ("MANUAL", "四旋翼", "待机", "加锁", "手动"), [false, false, true, false, false, false, false, false, false]);
    assert_eq!(doc, want);
}

#[test]
fn armed_heartbeat_document_matches_serde_json() {
    let hb = HeartbeatData { custom_mode: 4_000_000_123, mavtype: 10, autopilot: 3, base_mode: 0b1111_1101, system_status: 4, mavlink_version: 255 };
    let doc = write_heartbeat_document(255, 190, 17, &hb, "MAV_AUTOPILOT_ARDUPILOTMEGA");
    let want = expected(255, 190, 17, &hb, "MAV_AUTOPILOT_ARDUPILOTMEGA", ("UNKNOWN", "地面车辆", "活动", "解锁", "自动"), [true, true, false, true, true, true, true, true, true]);
    assert_eq!(doc, want);
    assert!(doc.contains("\"custom_mode\":4000000123"));
}
