use mavlink_server::forwarder::{MissionForwarder, Publication};
use mavlink_server::protocol::{InboundMessage, Waypoint, WaypointWrite};

#[test]
fn download_is_announced_item_by_item_and_completed() {
    let mut f = MissionForwarder::new();
    assert_eq!(f.forward(InboundMessage::MissionCount { count: 2 }), vec![Publication::DownloadStart { total: 2 }]);
    let w0 = Waypoint { seq: 0, lat_e7: 1, lon_e7: 2, alt_bits: 3 };
    let w1 = Waypoint { seq: 1, lat_e7: 4, lon_e7: 5, alt_bits: 6 };
    assert_eq!(
        f.forward(InboundMessage::MissionItemInt { seq: 0, x: 1, y: 2, z_bits: 3 }),
        vec![Publication::Waypoint { total_count: 2, waypoint: w0 }]
    );
    assert_eq!(
        f.forward(InboundMessage::MissionItemInt { seq: 1, x: 4, y: 5, z_bits: 6 }),
        vec![Publication::Waypoint { total_count: 2, waypoint: w1 }, Publication::DownloadComplete]
    );
    assert_eq!(f.received(), &vec![w0, w1]);
    // A new count starts over.
    f.forward(InboundMessage::MissionCount { count: 1 });
    assert!(f.received().is_empty());
}

#[test]
fn last_possible_item_number_does_not_overflow() {
    let mut f = MissionForwarder::new();
    f.forward(InboundMessage::MissionCount { count: 0 });
    let pubs = f.forward(InboundMessage::MissionItemInt { seq: 65535, x: 0, y: 0, z_bits: 0 });
    assert_eq!(pubs.len(), 1);
}

#[test]
fn upload_requests_and_single_completion() {
    let mut f = MissionForwarder::new();
    assert_eq!(f.forward(InboundMessage::MissionAck), vec![]);
    assert_eq!(f.forward(InboundMessage::MissionRequest { seq: 0 }), vec![Publication::UploadRequest(WaypointWrite { seq: 0 })]);
    assert_eq!(f.forward(InboundMessage::MissionAck), vec![Publication::UploadComplete]);
    assert_eq!(f.forward(InboundMessage::MissionAck), vec![]);
}

#[test]
fn other_traffic_is_telemetry() {
    let mut f = MissionForwarder::new();
    assert_eq!(f.forward(InboundMessage::Other), vec![Publication::Telemetry]);
    assert_eq!(f.forward(InboundMessage::MissionRequestInt { seq: 3 }), vec![Publication::Telemetry]);
    assert_eq!(f.forward(InboundMessage::MissionClearAll), vec![]);
}
