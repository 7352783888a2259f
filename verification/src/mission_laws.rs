//! What the mission actor promises across events.

use vstd::prelude::*;
use crate::actor::{ActorEvent, ActorView, MissionStateView};
use crate::flight_mode::{flight_mode_name, mode_number, MAV_AUTOPILOT_ARDUPILOTMEGA};
use crate::protocol::{
    InboundMessage, MAV_CMD_COMPONENT_ARM_DISARM, MAV_CMD_DO_SET_MODE, MAV_CMD_NAV_WAYPOINT,
    MAV_FRAME_GLOBAL_RELATIVE_ALT,
    OutboundMessage, clear_all_message, mission_count_message, mission_item_message, request_item_message, request_list_message,
    waypoint_from_item, Waypoint,
};

verus! {

/// Every event, and a failed send of any message it hands out, keeps the
/// actor in the shape of [`ActorView::wf`].
pub proof fn lemma_step_preserves_wf(a: ActorView, e: ActorEvent)
    requires
        a.wf(),
    ensures
        a.step(e).0.wf(),
        forall|i: int|
            0 <= i < a.step(e).1.len() ==> #[trigger] a.step(e).0.after_send_failure(
                a.step(e).1[i],
            ).wf(),
{
}

/// While a transfer is under way, requests to write or clear the vehicle's
/// mission are refused: nothing changes and nothing is sent.
pub proof fn lemma_busy_actor_refuses_writes(a: ActorView, waypoints: Seq<Waypoint>)
    requires
        !(a.state is Idle),
    ensures
        a.on_set_waypoint_list(waypoints) == (a, Seq::<OutboundMessage>::empty()),
        a.on_clear_waypoint_list() == (a, Seq::<OutboundMessage>::empty()),
{
}

/// Arming, disarming and mode changes never touch the mission state, and a
/// failure to send them changes nothing either.
pub proof fn lemma_commands_leave_missions_alone(a: ActorView, e: ActorEvent)
    requires
        e is ArmDisarm || e is SetMode,
    ensures
        a.step(e).0 == a,
        forall|i: int|
            0 <= i < a.step(e).1.len() ==> #[trigger] a.after_send_failure(a.step(e).1[i]) == a,
{
}

/// A mission message that cannot be sent ends the transfer it belonged to:
/// the actor is idle again, and a deferred read is still remembered.
pub proof fn lemma_failed_transfer_returns_to_idle(a: ActorView, e: ActorEvent, i: int)
    requires
        0 <= i < a.step(e).1.len(),
        a.step(e).1[i].is_mission_message(),
    ensures
        a.step(e).0.after_send_failure(a.step(e).1[i]).state is Idle,
        a.step(e).0.after_send_failure(a.step(e).1[i]).pending_download
            == a.step(e).0.pending_download,
{
}

/// The actor after the vehicle has asked for items `0..k`, in order.
pub open spec fn serve_requests(a: ActorView, k: nat) -> ActorView
    decreases k,
{
    if k == 0 {
        a
    } else {
        serve_requests(a, (k - 1) as nat).on_mission_request((k - 1) as u16).0
    }
}

/// Uploading a list: an idle actor clears the vehicle's mission and announces
/// the count at once, without waiting; the acknowledgement of the clear is
/// ignored; when the vehicle asks for the items in order it receives each
/// waypoint under its position in the list; after the last one the
/// acknowledgement makes the actor idle again.
pub proof fn lemma_upload_in_order(a: ActorView, waypoints: Seq<Waypoint>, k: nat)
    requires
        (a.state is Idle),
        0 < waypoints.len() <= u16::MAX,
        k <= waypoints.len(),
    ensures
        a.on_set_waypoint_list(waypoints).1 == seq![
            clear_all_message(),
            mission_count_message(waypoints.len() as u16),
        ],
        a.on_set_waypoint_list(waypoints).0.on_mission_ack() == (
        a.on_set_waypoint_list(waypoints).0,
        Seq::<OutboundMessage>::empty()),
        serve_requests(a.on_set_waypoint_list(waypoints).0, k) == (ActorView {
            state: MissionStateView::Uploading { waypoints, current_index: k },
            pending_download: false,
        }),
        k < waypoints.len() ==> serve_requests(
            a.on_set_waypoint_list(waypoints).0,
            k,
        ).on_mission_request(k as u16).1 == seq![mission_item_message(k as u16, waypoints[k as int])],
        k == waypoints.len() ==> serve_requests(a.on_set_waypoint_list(waypoints).0, k).on_mission_ack()
            == (ActorView { state: MissionStateView::Idle, pending_download: false }, Seq::<
            OutboundMessage,
        >::empty()),
    decreases k,
{
    if k > 0 {
        lemma_upload_in_order(a, waypoints, (k - 1) as nat);
    }
}

/// The actor after items `0..k` of `items` have arrived, in order.
pub open spec fn receive_items(a: ActorView, items: Seq<Waypoint>, k: nat) -> ActorView
    decreases k,
{
    if k == 0 {
        a
    } else {
        let w = items[k - 1];
        receive_items(a, items, (k - 1) as nat).on_mission_item(w.seq, w.lat_e7, w.lon_e7, w.alt_bits).0
    }
}

/// Downloading a list: once the count `items.len()` arrives, the actor asks
/// for item 0, and each item that arrives in order is kept and answered by a
/// request for the next one; the last item ends the download.
pub proof fn lemma_download_in_order(a: ActorView, items: Seq<Waypoint>, k: nat)
    requires
        a.state is WaitingCount,
        0 < items.len() <= u16::MAX,
        forall|i: int| 0 <= i < items.len() ==> #[trigger] items[i].seq == i,
        k < items.len(),
    ensures
        a.on_mission_count(items.len() as u16).1 == seq![request_item_message(0)],
        receive_items(a.on_mission_count(items.len() as u16).0, items, k) == a.with_state(
            MissionStateView::Downloading {
                expected_count: items.len() as u16,
                next_seq: k as u16,
                received: items.take(k as int),
            },
        ),
        k + 1 < items.len() ==> receive_items(a.on_mission_count(items.len() as u16).0, items, k + 1) == a.with_state(
            MissionStateView::Downloading {
                expected_count: items.len() as u16,
                next_seq: (k + 1) as u16,
                received: items.take((k + 1) as int),
            },
        ) && receive_items(a.on_mission_count(items.len() as u16).0, items, k).on_mission_item(
            items[k as int].seq,
            items[k as int].lat_e7,
            items[k as int].lon_e7,
            items[k as int].alt_bits,
        ).1 == seq![request_item_message((k + 1) as u16)],
        k + 1 == items.len() ==> receive_items(a.on_mission_count(items.len() as u16).0, items, k).on_mission_item(
            items[k as int].seq,
            items[k as int].lat_e7,
            items[k as int].lon_e7,
            items[k as int].alt_bits,
        ) == (a.with_state(MissionStateView::Idle), Seq::<OutboundMessage>::empty()),
    decreases k,
{
    let start = a.on_mission_count(items.len() as u16).0;
    if k > 0 {
        lemma_download_in_order(a, items, (k - 1) as nat);
        let w = items[k - 1];
        assert(waypoint_from_item(w.seq, w.lat_e7, w.lon_e7, w.alt_bits) == w);
        assert(items.take((k - 1) as int).push(w) =~= items.take(k as int));
    } else {
        assert(items.take(0) =~= Seq::<Waypoint>::empty());
    }
    let w = items[k as int];
    assert(waypoint_from_item(w.seq, w.lat_e7, w.lon_e7, w.alt_bits) == w);
    assert(items.take(k as int).push(w) =~= items.take((k + 1) as int));
}

/// A read asked for during an upload waits: it is remembered, the upload goes
/// on, and the acknowledgement of the finished upload starts the read.
pub proof fn lemma_read_during_upload_is_deferred(a: ActorView, seq: u16)
    requires
        a.wf(),
        (a.state is Uploading),
    ensures
        a.on_request_waypoint_list() == (a.with_pending(true), Seq::<OutboundMessage>::empty()),
        a.with_pending(true).on_mission_request(seq).0.pending_download,
        a.state->Uploading_current_index == a.state->Uploading_waypoints.len()
            ==> a.with_pending(true).on_mission_ack() == (
        ActorView { state: MissionStateView::WaitingCount, pending_download: false },
        seq![request_list_message()]),
{
}

/// Every item that arrives during a download is kept, in arrival order, and
/// answered by a request for the item after it while that is within the
/// announced count; the item that reaches the count ends the download.
pub proof fn lemma_downloaded_items_are_kept(a: ActorView, seq: u16, x: i32, y: i32, z_bits: u32)
    requires
        a.wf(),
        (a.state is Downloading),
    ensures
        seq + 1 < a.state->expected_count ==> a.on_mission_item(seq, x, y, z_bits) == (
        a.with_state(
            MissionStateView::Downloading {
                expected_count: a.state->expected_count,
                next_seq: (seq + 1) as u16,
                received: a.state->received.push(waypoint_from_item(seq, x, y, z_bits)),
            },
        ),
        seq![request_item_message((seq + 1) as u16)]),
        seq + 1 >= a.state->expected_count ==> a.on_mission_item(seq, x, y, z_bits) == (
        a.with_state(MissionStateView::Idle),
        Seq::<OutboundMessage>::empty()),
{
}

/// What the actor does with a run of events, one after the other, when
/// every message it hands out is sent: the state it ends in and all the
/// messages, in the order they were handed out.
pub open spec fn run_events(a: ActorView, events: Seq<ActorEvent>) -> (ActorView, Seq<OutboundMessage>)
    decreases events.len(),
{
    if events.len() == 0 {
        (a, Seq::empty())
    } else {
        let first = a.step(events[0]);
        let rest = run_events(first.0, events.drop_first());
        (rest.0, first.1 + rest.1)
    }
}

/// Handling events one at a time composes: running two runs of events one
/// after the other is running them together, and the actor keeps its shape
/// throughout.
pub proof fn lemma_runs_compose(a: ActorView, first: Seq<ActorEvent>, second: Seq<ActorEvent>)
    requires
        a.wf(),
    ensures
        run_events(a, first + second) == (
        run_events(run_events(a, first).0, second).0,
        run_events(a, first).1 + run_events(run_events(a, first).0, second).1),
        run_events(a, first).0.wf(),
    decreases first.len(),
{
    if first.len() == 0 {
        assert(first + second =~= second);
        assert(Seq::<OutboundMessage>::empty() + run_events(a, second).1 =~= run_events(a, second).1);
    } else {
        let b = a.step(first[0]).0;
        lemma_step_preserves_wf(a, first[0]);
        lemma_runs_compose(b, first.drop_first(), second);
        assert((first + second).drop_first() =~= first.drop_first() + second);
        assert((first + second)[0] == first[0]);
        let m0 = a.step(first[0]).1;
        let m1 = run_events(b, first.drop_first()).1;
        let m2 = run_events(run_events(b, first.drop_first()).0, second).1;
        assert(m0 + (m1 + m2) =~= (m0 + m1) + m2);
    }
}

/// Messages from the vehicle that are not part of the mission protocol
/// (heartbeats, positions, attitudes, ...) and the vehicle's own
/// `MISSION_CLEAR_ALL` change neither the mission state nor the deferred read,
/// and make the actor send nothing, whatever state it is in.
pub proof fn lemma_telemetry_changes_nothing(a: ActorView)
    ensures
        a.on_vehicle_message(InboundMessage::Other) == (a, Seq::<OutboundMessage>::empty()),
        a.on_vehicle_message(InboundMessage::MissionClearAll) == (a, Seq::<OutboundMessage>::empty()),
        a.step(ActorEvent::MavlinkMessage(InboundMessage::Other)) == (a, Seq::<OutboundMessage>::empty()),
{
}

/// Telemetry interleaved anywhere in a run of events is invisible: inserting
/// a non-mission message at any position leaves the final state and every
/// message sent exactly as they were. A download, an upload or a deferred
/// read thus survives any number of interleaved heartbeats.
pub proof fn lemma_interleaved_telemetry_is_invisible(a: ActorView, events: Seq<ActorEvent>, i: int)
    requires
        0 <= i <= events.len(),
    ensures
        run_events(a, events.insert(i, ActorEvent::MavlinkMessage(InboundMessage::Other)))
            == run_events(a, events),
    decreases i,
{
    let other = ActorEvent::MavlinkMessage(InboundMessage::Other);
    let inserted = events.insert(i, other);
    lemma_telemetry_changes_nothing(a);
    if i == 0 {
        assert(inserted[0] == other);
        assert(inserted.drop_first() =~= events);
        assert(Seq::<OutboundMessage>::empty() + run_events(a, events).1 =~= run_events(a, events).1);
    } else {
        let b = a.step(events[0]).0;
        assert(inserted[0] == events[0]);
        assert(inserted.drop_first() =~= events.drop_first().insert(i - 1, other));
        lemma_interleaved_telemetry_is_invisible(b, events.drop_first(), i - 1);
    }
}

/// The mode commanded is the mode named: a known Rover mode name makes the
/// actor send exactly one `COMMAND_LONG` `MAV_CMD_DO_SET_MODE` to the
/// default target, unconfirmed, with param1 1 (custom mode) and param2 the
/// mode's number, which an ArduPilot heartbeat then reports under that same
/// name; an unknown name sends nothing. The mission state is untouched.
pub proof fn lemma_mode_commanded_is_mode_named(a: ActorView, name: Seq<char>)
    ensures
        a.on_set_mode(name).0 == a,
        mode_number(name) is None ==> a.on_set_mode(name).1.len() == 0,
        mode_number(name) is Some ==> a.on_set_mode(name).1.len() == 1,
        mode_number(name) is Some ==> (a.on_set_mode(name).1[0] matches OutboundMessage::CommandLong {
            target_system,
            target_component,
            command,
            confirmation,
            param1,
            param2,
        } && target_system == 1 && target_component == 1 && command == MAV_CMD_DO_SET_MODE
            && command == 176 && confirmation == 0 && param1 == 1 && param2 == mode_number(name)->0
            && flight_mode_name(MAV_AUTOPILOT_ARDUPILOTMEGA, param2 as u32) == name),
{
    if mode_number(name) is Some {
        crate::flight_mode::lemma_selected_mode_is_reported_by_name(name);
    }
}

/// Arming sends one confirmed `MAV_CMD_COMPONENT_ARM_DISARM` with param1 1,
/// disarming the same with param1 0; the mission state is untouched.
pub proof fn lemma_arm_command(a: ActorView, arm: bool)
    ensures
        a.on_arm_disarm(arm).0 == a,
        a.on_arm_disarm(arm).1.len() == 1,
        (a.on_arm_disarm(arm).1[0] matches OutboundMessage::CommandLong {
            target_system,
            target_component,
            command,
            confirmation,
            param1,
            param2,
        } && target_system == 1 && target_component == 1 && command == MAV_CMD_COMPONENT_ARM_DISARM
            && command == 400 && confirmation == 1 && (param1 == 1 <==> arm) && (param1 == 0 <==> !arm)
            && param2 == 0),
{
}

/// A request for an upload item is answered with one `MISSION_ITEM_INT`
/// numbered as requested that holds exactly the coordinates of the waypoint
/// at that position, as a navigation waypoint in the relative-altitude
/// frame, current only when it is the first.
pub proof fn lemma_upload_item_carries_its_waypoint(a: ActorView, seq: u16)
    requires
        (a.state is Uploading),
        seq < a.state->Uploading_waypoints.len(),
    ensures
        a.on_mission_request(seq).1.len() == 1,
        (a.on_mission_request(seq).1[0] matches OutboundMessage::MissionItemInt {
            target_system,
            target_component,
            seq: s,
            frame,
            command,
            current,
            autocontinue,
            x,
            y,
            z_bits,
        } && target_system == 1 && target_component == 1 && s == seq && frame == 3 && frame
            == MAV_FRAME_GLOBAL_RELATIVE_ALT && command == 16 && command == MAV_CMD_NAV_WAYPOINT
            && (current == 1 <==> seq == 0) && (current == 0 <==> seq != 0) && autocontinue == 1
            && x == a.state->Uploading_waypoints[seq as int].lat_e7 && y
            == a.state->Uploading_waypoints[seq as int].lon_e7 && z_bits
            == a.state->Uploading_waypoints[seq as int].alt_bits),
{
}

/// An accepted list is announced with its own length, after the clear, both
/// to the default target.
pub proof fn lemma_upload_announces_its_length(a: ActorView, waypoints: Seq<Waypoint>)
    requires
        (a.state is Idle),
        0 < waypoints.len() <= u16::MAX,
    ensures
        a.on_set_waypoint_list(waypoints).1.len() == 2,
        (a.on_set_waypoint_list(waypoints).1[0] matches OutboundMessage::MissionClearAll {
            target_system,
            target_component,
        } && target_system == 1 && target_component == 1),
        (a.on_set_waypoint_list(waypoints).1[1] matches OutboundMessage::MissionCount {
            target_system,
            target_component,
            count,
        } && target_system == 1 && target_component == 1 && count == waypoints.len()),
{
}

/// A download begins by asking for item 0, and each item that arrives is kept
/// with the number and coordinates it came with, behind those kept before,
/// and answered by a request for the item after it while that is within the
/// count.
pub proof fn lemma_download_requests_follow_items(
    a: ActorView,
    count: u16,
    seq: u16,
    x: i32,
    y: i32,
    z_bits: u32,
)
    ensures
        ((a.state is WaitingCount) && count > 0) ==> (a.on_mission_count(count).1.len() == 1 && a.on_mission_count(count).1[0] == (OutboundMessage::MissionRequestInt {
            target_system: 1,
            target_component: 1,
            seq: 0,
        })),
        ((a.state is Downloading) && seq + 1 < a.state->expected_count) ==> (a.on_mission_item(
            seq,
            x,
            y,
            z_bits,
        ).1.len() == 1 && a.on_mission_item(seq, x, y, z_bits).1[0] == (OutboundMessage::MissionRequestInt {
            target_system: 1,
            target_component: 1,
            seq: (seq + 1) as u16,
        }) && a.on_mission_item(seq, x, y, z_bits).0.state->received == a.state->received.push(
            (Waypoint { seq, lat_e7: x, lon_e7: y, alt_bits: z_bits }),
        )),
        ((a.state is Downloading) && seq + 1 >= a.state->expected_count) ==> (a.on_mission_item(
            seq,
            x,
            y,
            z_bits,
        ).1.len() == 0 && (a.on_mission_item(seq, x, y, z_bits).0.state is Idle)),
{
}

/// Messages that the current state does not wait for are ignored: a count
/// outside a read, an item request outside an upload, an acknowledgement
/// while idle, reading or downloading, and an upload request or an
/// acknowledgement during an upload that has items left. A mission item that
/// arrives outside a download resets the actor to idle (keeping a deferred
/// read) and sends nothing.
pub proof fn lemma_unexpected_messages(a: ActorView, count: u16, seq: u16, x: i32, y: i32, z_bits: u32)
    ensures
        !(a.state is WaitingCount) ==> a.on_mission_count(count) == (a, Seq::<OutboundMessage>::empty()),
        !(a.state is Uploading) ==> a.on_mission_request(seq) == (a, Seq::<OutboundMessage>::empty()),
        (a.state is Idle || a.state is WaitingCount || a.state is Downloading) ==> a.on_mission_ack() == (
        a,
        Seq::<OutboundMessage>::empty()),
        ((a.state is Uploading) && a.state->Uploading_current_index != a.state->Uploading_waypoints.len())
            ==> a.on_mission_ack() == (a, Seq::<OutboundMessage>::empty()),
        !(a.state is Downloading) ==> a.on_mission_item(seq, x, y, z_bits) == (
        ActorView { state: MissionStateView::Idle, pending_download: a.pending_download },
        Seq::<OutboundMessage>::empty()),
{
}

/// Clearing the vehicle's mission: an idle actor sends one `MISSION_CLEAR_ALL`
/// to the default target and waits; the acknowledgement makes it idle again.
pub proof fn lemma_clear_round(a: ActorView)
    requires
        (a.state is Idle),
    ensures
        a.on_clear_waypoint_list().1 == seq![
            OutboundMessage::MissionClearAll { target_system: 1, target_component: 1 },
        ],
        a.on_clear_waypoint_list().0 == (ActorView {
            state: MissionStateView::Clearing,
            pending_download: false,
        }),
        a.on_clear_waypoint_list().0.on_mission_ack() == (ActorView {
            state: MissionStateView::Idle,
            pending_download: false,
        }, Seq::<OutboundMessage>::empty()),
        a.on_set_waypoint_list(Seq::empty()) == a.on_clear_waypoint_list(),
{
}

/// A read asked for while idle sends one `MISSION_REQUEST_LIST` to the default
/// target and waits for the count; asked for during a read or a clear it is
/// dropped.
pub proof fn lemma_read_request(a: ActorView)
    ensures
        (a.state is Idle) ==> a.on_request_waypoint_list() == (a.with_state(
            MissionStateView::WaitingCount,
        ), seq![OutboundMessage::MissionRequestList { target_system: 1, target_component: 1 }]),
        (a.state is Clearing || a.state is WaitingCount || a.state is Downloading)
            ==> a.on_request_waypoint_list() == (a, Seq::<OutboundMessage>::empty()),
{
}

} // verus!
