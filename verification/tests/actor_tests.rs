use mavlink_server::actor::{MavlinkActor, MavlinkActorMessage, MissionState};
use mavlink_server::protocol::{InboundMessage, OutboundMessage, Waypoint};

fn wp(seq: u16, lat_e7: i32, lon_e7: i32, alt: f32) -> Waypoint {
    Waypoint { seq, lat_e7, lon_e7, alt_bits: alt.to_bits() }
}

fn item(seq: u16, x: i32, y: i32, z: f32) -> OutboundMessage {
    OutboundMessage::MissionItemInt {
        target_system: 1,
        target_component: 1,
        seq,
        frame: 3,
        command: 16,
        current: if seq == 0 { 1 } else { 0 },
        autocontinue: 1,
        x,
        y,
        z_bits: z.to_bits(),
    }
}

fn request(seq: u16) -> OutboundMessage {
    OutboundMessage::MissionRequestInt { target_system: 1, target_component: 1, seq }
}

fn clear_all() -> OutboundMessage {
    OutboundMessage::MissionClearAll { target_system: 1, target_component: 1 }
}

fn count(count: u16) -> OutboundMessage {
    OutboundMessage::MissionCount { target_system: 1, target_component: 1, count }
}

fn request_list() -> OutboundMessage {
    OutboundMessage::MissionRequestList { target_system: 1, target_component: 1 }
}

fn is_idle(a: &MavlinkActor) -> bool {
    matches!(a.state(), MissionState::Idle)
}

#[test]
fn new_actor_is_idle() {
    let a = MavlinkActor::new();
    assert!(is_idle(&a));
    assert!(!a.pending_download());
    assert!(matches!(MissionState::default(), MissionState::Idle));
}

#[test]
fn upload_walks_through_requests_and_ack() {
    let mut a = MavlinkActor::new();
    let wps = vec![wp(7, 300_000_000, 1_200_000_000, 10.0), wp(9, 300_000_100, 1_200_000_200, 12.5)];
    let out = a.handle(MavlinkActorMessage::SetWaypointList { waypoints: wps });
    // The vehicle's mission is cleared and the count announced at once.
    assert_eq!(out, vec![clear_all(), count(2)]);
    assert!(matches!(a.state(), MissionState::Uploading { current_index: 0, .. }));
    // The acknowledgement of the clear does not end the upload.
    assert_eq!(a.handle_mavlink_message(InboundMessage::MissionAck), vec![]);
    assert!(matches!(a.state(), MissionState::Uploading { current_index: 0, .. }));
    // The vehicle asks with the new message and then with the old one.
    let out = a.handle_mavlink_message(InboundMessage::MissionRequestInt { seq: 0 });
    assert_eq!(out, vec![item(0, 300_000_000, 1_200_000_000, 10.0)]);
    let out = a.handle_mavlink_message(InboundMessage::MissionRequest { seq: 1 });
    // The item number is the requested one, not the waypoint's own `seq`.
    assert_eq!(out, vec![item(1, 300_000_100, 1_200_000_200, 12.5)]);
    match a.state() {
        MissionState::Uploading { current_index, waypoints } => {
            assert_eq!(*current_index, 2);
            assert_eq!(waypoints.len(), 2);
        }
        _ => panic!("expected an upload"),
    }
    assert_eq!(a.handle_mavlink_message(InboundMessage::MissionAck), vec![]);
    assert!(is_idle(&a));
}

#[test]
fn ack_before_last_item_is_ignored() {
    let mut a = MavlinkActor::new();
    a.handle_set_waypoint_list(vec![wp(0, 1, 2, 3.0), wp(1, 4, 5, 6.0)]);
    a.handle_mission_request(0);
    assert_eq!(a.handle_mavlink_message(InboundMessage::MissionAck), vec![]);
    assert!(matches!(a.state(), MissionState::Uploading { current_index: 1, .. }));
}

#[test]
fn out_of_range_request_abandons_upload() {
    let mut a = MavlinkActor::new();
    a.handle_set_waypoint_list(vec![wp(0, 1, 2, 3.0)]);
    assert_eq!(a.handle_mission_request(1), vec![]);
    assert!(is_idle(&a));
}

#[test]
fn download_requests_each_item_in_turn() {
    let mut a = MavlinkActor::new();
    let out = a.handle(MavlinkActorMessage::RequestWaypointList);
    assert_eq!(out, vec![request_list()]);
    assert!(matches!(a.state(), MissionState::WaitingCount));
    let out = a.handle_mavlink_message(InboundMessage::MissionCount { count: 3 });
    assert_eq!(out, vec![request(0)]);
    let out = a.handle_mavlink_message(InboundMessage::MissionItemInt { seq: 0, x: 10, y: 20, z_bits: 30 });
    assert_eq!(out, vec![request(1)]);
    match a.state() {
        MissionState::Downloading { expected_count, next_seq, received } => {
            assert_eq!((*expected_count, *next_seq), (3, 1));
            assert_eq!(received, &vec![Waypoint { seq: 0, lat_e7: 10, lon_e7: 20, alt_bits: 30 }]);
        }
        _ => panic!("expected a download"),
    }
    let out = a.handle_mavlink_message(InboundMessage::MissionItemInt { seq: 1, x: 11, y: 21, z_bits: 31 });
    assert_eq!(out, vec![request(2)]);
    let out = a.handle_mavlink_message(InboundMessage::MissionItemInt { seq: 2, x: 12, y: 22, z_bits: 32 });
    assert_eq!(out, vec![]);
    assert!(is_idle(&a));
}

#[test]
fn out_of_order_item_is_kept_and_followed() {
    let mut a = MavlinkActor::new();
    a.handle_request_waypoint_list();
    a.handle_mavlink_message(InboundMessage::MissionCount { count: 5 });
    // Item 2 arrives while item 0 was asked for: it is kept and item 3 is asked for.
    let out = a.handle_mavlink_message(InboundMessage::MissionItemInt { seq: 2, x: 7, y: 8, z_bits: 9 });
    assert_eq!(out, vec![request(3)]);
    match a.state() {
        MissionState::Downloading { expected_count, next_seq, received } => {
            assert_eq!((*expected_count, *next_seq), (5, 3));
            assert_eq!(received, &vec![Waypoint { seq: 2, lat_e7: 7, lon_e7: 8, alt_bits: 9 }]);
        }
        _ => panic!("expected a download"),
    }
    // An item numbered at or past the count ends the download.
    assert_eq!(a.handle_mavlink_message(InboundMessage::MissionItemInt { seq: 9, x: 0, y: 0, z_bits: 0 }), vec![]);
    assert!(is_idle(&a));
}

#[test]
fn highest_item_number_ends_download() {
    let mut a = MavlinkActor::new();
    a.handle_request_waypoint_list();
    a.handle_mavlink_message(InboundMessage::MissionCount { count: 65535 });
    assert_eq!(a.handle_mavlink_message(InboundMessage::MissionItemInt { seq: 65535, x: 0, y: 0, z_bits: 0 }), vec![]);
    assert!(is_idle(&a));
}

#[test]
fn empty_mission_count_ends_download() {
    let mut a = MavlinkActor::new();
    a.handle_request_waypoint_list();
    assert_eq!(a.handle_mavlink_message(InboundMessage::MissionCount { count: 0 }), vec![]);
    assert!(is_idle(&a));
}

#[test]
fn count_outside_a_read_is_ignored() {
    let mut a = MavlinkActor::new();
    assert_eq!(a.handle_mavlink_message(InboundMessage::MissionCount { count: 4 }), vec![]);
    assert!(is_idle(&a));
}

#[test]
fn item_outside_a_download_abandons_the_transfer() {
    let mut a = MavlinkActor::new();
    a.handle_set_waypoint_list(vec![wp(0, 1, 2, 3.0)]);
    assert!(matches!(a.state(), MissionState::Uploading { .. }));
    assert_eq!(a.handle_mavlink_message(InboundMessage::MissionItemInt { seq: 0, x: 1, y: 2, z_bits: 3 }), vec![]);
    assert!(is_idle(&a));
    a.handle_clear_waypoint_list();
    assert_eq!(a.handle_mavlink_message(InboundMessage::MissionItemInt { seq: 0, x: 1, y: 2, z_bits: 3 }), vec![]);
    assert!(is_idle(&a));
}

#[test]
fn busy_actor_refuses_new_list_and_clear() {
    let mut a = MavlinkActor::new();
    a.handle_request_waypoint_list();
    assert_eq!(a.handle_set_waypoint_list(vec![wp(0, 1, 2, 3.0)]), vec![]);
    assert_eq!(a.handle_clear_waypoint_list(), vec![]);
    assert!(matches!(a.state(), MissionState::WaitingCount));
    // A second read during a read is dropped.
    assert_eq!(a.handle_request_waypoint_list(), vec![]);
    assert!(!a.pending_download());
}

#[test]
fn empty_list_clears_the_mission() {
    let mut a = MavlinkActor::new();
    let out = a.handle_set_waypoint_list(Vec::new());
    assert_eq!(out, vec![clear_all()]);
    assert!(matches!(a.state(), MissionState::Clearing));
    assert_eq!(a.handle_mavlink_message(InboundMessage::MissionAck), vec![]);
    assert!(is_idle(&a));
}

#[test]
fn oversized_list_is_refused() {
    let mut a = MavlinkActor::new();
    let wps = vec![wp(0, 0, 0, 0.0); 65536];
    assert_eq!(a.handle_set_waypoint_list(wps), vec![]);
    assert!(is_idle(&a));
    let wps = vec![wp(0, 0, 0, 0.0); 65535];
    assert_eq!(a.handle_set_waypoint_list(wps), vec![clear_all(), count(65535)]);
}

#[test]
fn read_during_upload_starts_after_final_ack() {
    let mut a = MavlinkActor::new();
    a.handle_set_waypoint_list(vec![wp(0, 1, 2, 3.0)]);
    assert_eq!(a.handle_request_waypoint_list(), vec![]);
    assert!(a.pending_download());
    a.handle_mission_request(0);
    assert!(a.pending_download());
    let out = a.handle_mavlink_message(InboundMessage::MissionAck);
    assert_eq!(out, vec![request_list()]);
    assert!(matches!(a.state(), MissionState::WaitingCount));
    assert!(!a.pending_download());
}

#[test]
fn failed_transfer_send_returns_to_idle() {
    let mut a = MavlinkActor::new();
    let out = a.handle_set_waypoint_list(vec![wp(0, 1, 2, 3.0)]);
    // The clear could not be sent: the upload is abandoned and the count not sent.
    a.send_failed(&out[0]);
    assert!(is_idle(&a));
    let out = a.handle_set_waypoint_list(vec![wp(0, 1, 2, 3.0)]);
    a.send_failed(&out[1]);
    assert!(is_idle(&a));
    let out = a.handle_clear_waypoint_list();
    a.send_failed(&out[0]);
    assert!(is_idle(&a));
}

#[test]
fn failed_command_send_changes_nothing() {
    let mut a = MavlinkActor::new();
    a.handle_set_waypoint_list(vec![wp(0, 1, 2, 3.0)]);
    let out = a.handle_arm_disarm(true);
    a.send_failed(&out[0]);
    assert!(matches!(a.state(), MissionState::Uploading { current_index: 0, .. }));
}

#[test]
fn arm_and_disarm_commands() {
    let mut a = MavlinkActor::new();
    let arm = OutboundMessage::CommandLong { target_system: 1, target_component: 1, command: 400, confirmation: 1, param1: 1, param2: 0 };
    let disarm = OutboundMessage::CommandLong { target_system: 1, target_component: 1, command: 400, confirmation: 1, param1: 0, param2: 0 };
    assert_eq!(a.handle(MavlinkActorMessage::ArmDisarm { arm: true }), vec![arm]);
    assert_eq!(a.handle(MavlinkActorMessage::ArmDisarm { arm: false }), vec![disarm]);
}

#[test]
fn set_mode_sends_rover_mode_number() {
    let mut a = MavlinkActor::new();
    let out = a.handle(MavlinkActorMessage::SetMode { mode: "GUIDED".to_string() });
    assert_eq!(out, vec![OutboundMessage::CommandLong { target_system: 1, target_component: 1, command: 176, confirmation: 0, param1: 1, param2: 15 }]);
    let out = a.handle_set_mode("INITIALISING".to_string());
    assert_eq!(out, vec![OutboundMessage::CommandLong { target_system: 1, target_component: 1, command: 176, confirmation: 0, param1: 1, param2: 16 }]);
    assert_eq!(a.handle_set_mode("guided".to_string()), vec![]);
    assert_eq!(a.handle_set_mode("FLY".to_string()), vec![]);
}

#[test]
fn other_vehicle_messages_change_nothing() {
    let mut a = MavlinkActor::new();
    a.handle_request_waypoint_list();
    assert_eq!(a.handle_mavlink_message(InboundMessage::Other), vec![]);
    assert_eq!(a.handle_mavlink_message(InboundMessage::MissionClearAll), vec![]);
    assert!(matches!(a.state(), MissionState::WaitingCount));
}

#[test]
fn events_in_turn_match_one_by_one() {
    let events = || {
        vec![
            MavlinkActorMessage::SetWaypointList { waypoints: vec![wp(0, 1, 2, 3.0), wp(1, 4, 5, 6.0)] },
            MavlinkActorMessage::RequestWaypointList,
            MavlinkActorMessage::MavlinkMessage(InboundMessage::MissionAck),
            MavlinkActorMessage::MavlinkMessage(InboundMessage::MissionRequestInt { seq: 0 }),
            MavlinkActorMessage::MavlinkMessage(InboundMessage::MissionRequestInt { seq: 1 }),
            MavlinkActorMessage::MavlinkMessage(InboundMessage::MissionAck),
            MavlinkActorMessage::ArmDisarm { arm: true },
        ]
    };
    let mut batch = MavlinkActor::new();
    let all = batch.handle_events(events());
    let mut single = MavlinkActor::new();
    let mut each = Vec::new();
    for e in events() {
        each.extend(single.handle(e));
    }
    assert_eq!(all, each);
    assert_eq!(all.len(), 6);
    assert_eq!(all[4], request_list());
    assert!(matches!(batch.state(), MissionState::WaitingCount));
    assert!(!batch.pending_download());
}
