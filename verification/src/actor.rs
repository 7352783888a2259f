//! The mission actor: the state machine that downloads and uploads waypoint
//! lists over the MAVLink mission protocol and relays operator commands.
//!
//! Each handler takes the event, updates the actor and returns the messages
//! to send to the vehicle, in order. The caller sends them in that order;
//! when one cannot be sent it reports that one with
//! [`MavlinkActor::send_failed`], which abandons a mission operation in
//! progress, and sends none of the rest.

use vstd::prelude::*;
use crate::protocol::{
    build_clear_all, build_mission_count, build_mission_item, build_request_item,
    build_request_list, build_waypoint, clear_all_message, mission_count_message,
    mission_item_message, request_item_message, request_list_message, waypoint_from_item, InboundMessage, OutboundMessage, Waypoint,
    DEFAULT_TARGET_COMPONENT_ID, DEFAULT_TARGET_SYSTEM_ID, MAV_CMD_COMPONENT_ARM_DISARM,
    MAV_CMD_DO_SET_MODE,
};
use crate::flight_mode::{mode_number, rover_mode_number};
use crate::mission_laws::{lemma_runs_compose, run_events};

verus! {

/// Where the actor stands in a mission transfer.
#[derive(Clone, Debug)]
pub enum MissionState {
    /// No transfer in progress.
    Idle,
    /// `MISSION_CLEAR_ALL` sent, waiting for its acknowledgement.
    Clearing,
    /// `MISSION_REQUEST_LIST` sent, waiting for `MISSION_COUNT`.
    WaitingCount,
    /// Downloading `expected_count` items: `received` holds the items that
    /// arrived, in arrival order, and item `next_seq` was asked for last.
    Downloading { expected_count: u16, next_seq: u16, received: Vec<Waypoint> },
    /// Uploading `waypoints`; `current_index` is one past the last item sent.
    Uploading { waypoints: Vec<Waypoint>, current_index: usize },
}

/// The mathematical value of a [`MissionState`].
pub enum MissionStateView {
    Idle,
    Clearing,
    WaitingCount,
    Downloading { expected_count: u16, next_seq: u16, received: Seq<Waypoint> },
    Uploading { waypoints: Seq<Waypoint>, current_index: nat },
}

impl View for MissionState {
    type V = MissionStateView;

    open spec fn view(&self) -> MissionStateView {
        match self {
            MissionState::Idle => MissionStateView::Idle,
            MissionState::Clearing => MissionStateView::Clearing,
            MissionState::WaitingCount => MissionStateView::WaitingCount,
            MissionState::Downloading { expected_count, next_seq, received } => {
                MissionStateView::Downloading {
                    expected_count: *expected_count,
                    next_seq: *next_seq,
                    received: received@,
                }
            },
            MissionState::Uploading { waypoints, current_index } => MissionStateView::Uploading {
                waypoints: waypoints@,
                current_index: *current_index as nat,
            },
        }
    }
}

impl Default for MissionState {
    fn default() -> (s: MissionState)
        ensures
            s@ == MissionStateView::Idle,
    {
        MissionState::Idle
    }
}

/// An event for the actor: a message from the vehicle or an operator request.
pub enum MavlinkActorMessage {
    MavlinkMessage(InboundMessage),
    RequestWaypointList,
    ArmDisarm { arm: bool },
    SetMode { mode: String },
    SetWaypointList { waypoints: Vec<Waypoint> },
    ClearWaypointList,
}

/// The mathematical value of a [`MavlinkActorMessage`].
pub enum ActorEvent {
    MavlinkMessage(InboundMessage),
    RequestWaypointList,
    ArmDisarm { arm: bool },
    SetMode { mode: Seq<char> },
    SetWaypointList { waypoints: Seq<Waypoint> },
    ClearWaypointList,
}

impl View for MavlinkActorMessage {
    type V = ActorEvent;

    open spec fn view(&self) -> ActorEvent {
        match self {
            MavlinkActorMessage::MavlinkMessage(m) => ActorEvent::MavlinkMessage(*m),
            MavlinkActorMessage::RequestWaypointList => ActorEvent::RequestWaypointList,
            MavlinkActorMessage::ArmDisarm { arm } => ActorEvent::ArmDisarm { arm: *arm },
            MavlinkActorMessage::SetMode { mode } => ActorEvent::SetMode { mode: mode@ },
            MavlinkActorMessage::SetWaypointList { waypoints } => ActorEvent::SetWaypointList {
                waypoints: waypoints@,
            },
            MavlinkActorMessage::ClearWaypointList => ActorEvent::ClearWaypointList,
        }
    }
}

/// The mathematical value of a [`MavlinkActor`].
pub struct ActorView {
    pub state: MissionStateView,
    /// A download was asked for during an upload and starts when it ends.
    pub pending_download: bool,
}

/// What one event does: the actor afterwards and the messages to send, in order.
pub type Step = (ActorView, Seq<OutboundMessage>);

impl ActorView {
    /// The shape that every state the actor reaches has: a download still
    /// has the item it asked for last to come; a mission being replaced or
    /// uploaded holds between one and `u16::MAX` waypoints, and an upload has
    /// not sent past the end.
    pub open spec fn wf(self) -> bool {
        match self.state {
            MissionStateView::Downloading { expected_count, next_seq, .. } => {
                next_seq < expected_count
            },
            MissionStateView::Uploading { waypoints, current_index } => {
                &&& 0 < waypoints.len() <= u16::MAX
                &&& current_index <= waypoints.len()
            },
            _ => true,
        }
    }

    pub open spec fn with_state(self, state: MissionStateView) -> ActorView {
        ActorView { state, ..self }
    }

    pub open spec fn with_pending(self, pending_download: bool) -> ActorView {
        ActorView { pending_download, ..self }
    }

    /// `MISSION_COUNT`: answers a list request by asking for the first item.
    pub open spec fn on_mission_count(self, count: u16) -> Step {
        match self.state {
            MissionStateView::WaitingCount => {
                if count == 0 {
                    (self.with_state(MissionStateView::Idle), Seq::empty())
                } else {
                    (
                        self.with_state(
                            MissionStateView::Downloading {
                                expected_count: count,
                                next_seq: 0,
                                received: Seq::empty(),
                            },
                        ),
                        seq![request_item_message(0)],
                    )
                }
            },
            _ => (self, Seq::empty()),
        }
    }

    /// `MISSION_ITEM_INT`: during a download, keeps the item, whatever its
    /// number, and asks for the item after it while that is within the
    /// announced count; otherwise the download is over. In every other state
    /// the item resets the actor to idle, ending whatever transfer was under
    /// way, an upload included: the state is taken out of the actor before it
    /// is looked at, and only a download puts one back.
    pub open spec fn on_mission_item(self, seq: u16, x: i32, y: i32, z_bits: u32) -> Step {
        match self.state {
            MissionStateView::Downloading { expected_count, received, .. } => {
                let received = received.push(waypoint_from_item(seq, x, y, z_bits));
                if seq + 1 < expected_count {
                    (
                        self.with_state(
                            MissionStateView::Downloading {
                                expected_count,
                                next_seq: (seq + 1) as u16,
                                received,
                            },
                        ),
                        seq![request_item_message((seq + 1) as u16)],
                    )
                } else {
                    (self.with_state(MissionStateView::Idle), Seq::empty())
                }
            },
            _ => (self.with_state(MissionStateView::Idle), Seq::empty()),
        }
    }

    /// `MISSION_REQUEST_INT` or `MISSION_REQUEST` for item `seq`: during an
    /// upload, sends that waypoint, or gives up when `seq` is out of range.
    pub open spec fn on_mission_request(self, seq: u16) -> Step {
        match self.state {
            MissionStateView::Uploading { waypoints, current_index } => {
                if seq < waypoints.len() {
                    (
                        self.with_state(
                            MissionStateView::Uploading {
                                waypoints,
                                current_index: seq as nat + 1,
                            },
                        ),
                        seq![mission_item_message(seq, waypoints[seq as int])],
                    )
                } else {
                    (self.with_state(MissionStateView::Idle), Seq::empty())
                }
            },
            _ => (self, Seq::empty()),
        }
    }

    /// `MISSION_REQUEST_LIST` is sent and the actor waits for the count.
    pub open spec fn on_request_list_sent(self) -> Step {
        (self.with_state(MissionStateView::WaitingCount), seq![request_list_message()])
    }

    /// `MISSION_ACK`: ends a clear, or an upload whose items have all been
    /// sent, starting a download that was asked for meanwhile. An
    /// acknowledgement that comes earlier in an upload (such as the one that
    /// answers the clear which opened it) is ignored.
    pub open spec fn on_mission_ack(self) -> Step {
        match self.state {
            MissionStateView::Clearing => (self.with_state(MissionStateView::Idle), Seq::empty()),
            MissionStateView::Uploading { waypoints, current_index } => {
                if current_index == waypoints.len() {
                    if self.pending_download {
                        ActorView { pending_download: false, ..self }.on_request_list_sent()
                    } else {
                        (self.with_state(MissionStateView::Idle), Seq::empty())
                    }
                } else {
                    (self, Seq::empty())
                }
            },
            _ => (self, Seq::empty()),
        }
    }

    /// A message from the vehicle.
    pub open spec fn on_vehicle_message(self, msg: InboundMessage) -> Step {
        match msg {
            InboundMessage::MissionCount { count } => self.on_mission_count(count),
            InboundMessage::MissionItemInt { seq, x, y, z_bits } => self.on_mission_item(
                seq,
                x,
                y,
                z_bits,
            ),
            InboundMessage::MissionRequestInt { seq } => self.on_mission_request(seq),
            InboundMessage::MissionRequest { seq } => self.on_mission_request(seq),
            InboundMessage::MissionAck => self.on_mission_ack(),
            _ => (self, Seq::empty()),
        }
    }

    /// An operator's request to clear the vehicle's mission; refused while a
    /// transfer is under way.
    pub open spec fn on_clear_waypoint_list(self) -> Step {
        if !(self.state is Idle) {
            (self, Seq::empty())
        } else {
            (
                ActorView { state: MissionStateView::Clearing, pending_download: false },
                seq![clear_all_message()],
            )
        }
    }

    /// An operator's request to replace the vehicle's mission; refused while a
    /// transfer is under way or when the list is longer than MAVLink can
    /// count; an empty list clears the mission. A list is uploaded by clearing
    /// the vehicle's mission and announcing the count at once; the vehicle
    /// then asks for the items.
    pub open spec fn on_set_waypoint_list(self, waypoints: Seq<Waypoint>) -> Step {
        if !(self.state is Idle) || waypoints.len() > u16::MAX {
            (self, Seq::empty())
        } else if waypoints.len() == 0 {
            ActorView { pending_download: false, ..self }.on_clear_waypoint_list()
        } else {
            (
                ActorView {
                    state: MissionStateView::Uploading { waypoints, current_index: 0 },
                    pending_download: false,
                },
                seq![clear_all_message(), mission_count_message(waypoints.len() as u16)],
            )
        }
    }

    /// An operator's request to read the vehicle's mission: starts at once
    /// when idle, waits for the end of an upload, is dropped during a read or
    /// a clear.
    pub open spec fn on_request_waypoint_list(self) -> Step {
        match self.state {
            MissionStateView::Idle => self.on_request_list_sent(),
            MissionStateView::Uploading { .. } => (self.with_pending(true), Seq::empty()),
            _ => (self, Seq::empty()),
        }
    }

    /// An operator's request to arm (`true`) or disarm the vehicle.
    pub open spec fn on_arm_disarm(self, arm: bool) -> Step {
        (self, seq![arm_disarm_message(arm)])
    }

    /// An operator's request to switch to the named Rover mode; unknown names
    /// are ignored.
    pub open spec fn on_set_mode(self, mode: Seq<char>) -> Step {
        match mode_number(mode) {
            Some(number) => (self, seq![set_mode_message(number)]),
            None => (self, Seq::empty()),
        }
    }

    /// Any event.
    pub open spec fn step(self, event: ActorEvent) -> Step {
        match event {
            ActorEvent::MavlinkMessage(m) => self.on_vehicle_message(m),
            ActorEvent::RequestWaypointList => self.on_request_waypoint_list(),
            ActorEvent::ArmDisarm { arm } => self.on_arm_disarm(arm),
            ActorEvent::SetMode { mode } => self.on_set_mode(mode),
            ActorEvent::SetWaypointList { waypoints } => self.on_set_waypoint_list(waypoints),
            ActorEvent::ClearWaypointList => self.on_clear_waypoint_list(),
        }
    }

    /// The actor after `msg` could not be sent: a mission transfer is
    /// abandoned, a failed command changes nothing.
    pub open spec fn after_send_failure(self, msg: OutboundMessage) -> ActorView {
        if msg.is_mission_message() {
            self.with_state(MissionStateView::Idle)
        } else {
            self
        }
    }
}

/// `COMMAND_LONG` `MAV_CMD_COMPONENT_ARM_DISARM`, confirmed, param1 1 to arm, 0 to disarm.
pub open spec fn arm_disarm_message(arm: bool) -> OutboundMessage {
    OutboundMessage::CommandLong {
        target_system: DEFAULT_TARGET_SYSTEM_ID,
        target_component: DEFAULT_TARGET_COMPONENT_ID,
        command: MAV_CMD_COMPONENT_ARM_DISARM,
        confirmation: 1,
        param1: if arm { 1u16 } else { 0u16 },
        param2: 0,
    }
}

/// `COMMAND_LONG` `MAV_CMD_DO_SET_MODE` with param1 1 (custom mode) and param2 the mode.
pub open spec fn set_mode_message(mode: u16) -> OutboundMessage {
    OutboundMessage::CommandLong {
        target_system: DEFAULT_TARGET_SYSTEM_ID,
        target_component: DEFAULT_TARGET_COMPONENT_ID,
        command: MAV_CMD_DO_SET_MODE,
        confirmation: 0,
        param1: 1,
        param2: mode,
    }
}

/// The one message `m`, to send.
fn one(m: OutboundMessage) -> (v: Vec<OutboundMessage>)
    ensures
        v@ == seq![m],
{
    let mut v = Vec::new();
    v.push(m);
    v
}

/// The mission actor.
pub struct MavlinkActor {
    state: MissionState,
    pending_download: bool,
}

impl View for MavlinkActor {
    type V = ActorView;

    closed spec fn view(&self) -> ActorView {
        ActorView { state: self.state@, pending_download: self.pending_download }
    }
}

impl MavlinkActor {
    /// Every actor keeps the shape of [`ActorView::wf`].
    #[verifier::type_invariant]
    closed spec fn inv(self) -> bool {
        self@.wf()
    }

    /// The current mission state.
    pub fn state(&self) -> (s: &MissionState)
        ensures
            s@ == self@.state,
            self@.wf(),
    {
        proof {
            use_type_invariant(self);
        }
        &self.state
    }

    /// Whether a download waits for the current upload to end.
    pub fn pending_download(&self) -> (b: bool)
        ensures
            b == self@.pending_download,
    {
        self.pending_download
    }

    /// An idle actor with no download waiting.
    pub fn new() -> (a: MavlinkActor)
        ensures
            a@ == (ActorView { state: MissionStateView::Idle, pending_download: false }),
    {
        MavlinkActor { state: MissionState::Idle, pending_download: false }
    }

    fn is_idle(&self) -> (b: bool)
        ensures
            b == (self@.state is Idle),
    {
        match self.state {
            MissionState::Idle => true,
            _ => false,
        }
    }

    /// Handles a message from the vehicle.
    pub fn handle_mavlink_message(&mut self, msg: InboundMessage) -> (out: Vec<OutboundMessage>)
        ensures
            final(self)@.wf(),
            (final(self)@, out@) == old(self)@.on_vehicle_message(msg),
    {
        proof {
            use_type_invariant(&*self);
        }
        match msg {
            InboundMessage::MissionCount { count } => self.handle_mission_count(count),
            InboundMessage::MissionItemInt { seq, x, y, z_bits } => self.handle_mission_item(
                seq,
                x,
                y,
                z_bits,
            ),
            InboundMessage::MissionRequestInt { seq } => self.handle_mission_request(seq),
            InboundMessage::MissionRequest { seq } => self.handle_mission_request(seq),
            InboundMessage::MissionAck => self.handle_mission_ack(),
            _ => Vec::new(),
        }
    }

    fn handle_mission_count(&mut self, count: u16) -> (out: Vec<OutboundMessage>)
        ensures
            final(self)@.wf(),
            (final(self)@, out@) == old(self)@.on_mission_count(count),
    {
        proof {
            use_type_invariant(&*self);
        }
        match self.state {
            MissionState::WaitingCount => {
                if count == 0 {
                    self.state = MissionState::Idle;
                    Vec::new()
                } else {
                    self.state = MissionState::Downloading {
                        expected_count: count,
                        next_seq: 0,
                        received: Vec::new(),
                    };
                    one(build_request_item(0))
                }
            },
            _ => Vec::new(),
        }
    }

    fn handle_mission_item(&mut self, seq: u16, x: i32, y: i32, z_bits: u32) -> (out: Vec<OutboundMessage>)
        ensures
            final(self)@.wf(),
            (final(self)@, out@) == old(self)@.on_mission_item(seq, x, y, z_bits),
    {
        proof {
            use_type_invariant(&*self);
        }
        let taken = self.take_state();
        match taken {
            MissionState::Downloading { expected_count, mut received, .. } => {
                received.push(build_waypoint(seq, x, y, z_bits));
                let following: u32 = seq as u32 + 1;
                if following < expected_count as u32 {
                    let next_seq = following as u16;
                    self.state = MissionState::Downloading { expected_count, next_seq, received };
                    one(build_request_item(next_seq))
                } else {
                    Vec::new()
                }
            },
            _ => Vec::new(),
        }
    }

    /// Answers the vehicle's request for mission item `seq` during an upload.
    pub fn handle_mission_request(&mut self, seq: u16) -> (out: Vec<OutboundMessage>)
        ensures
            final(self)@.wf(),
            (final(self)@, out@) == old(self)@.on_mission_request(seq),
    {
        proof {
            use_type_invariant(&*self);
        }
        let taken = self.take_state();
        match taken {
            MissionState::Uploading { waypoints, current_index } => {
                if (seq as usize) < waypoints.len() {
                    let wp = waypoints[seq as usize];
                    let item = build_mission_item(seq, wp);
                    self.state = MissionState::Uploading {
                        waypoints,
                        current_index: seq as usize + 1,
                    };
                    one(item)
                } else {
                    Vec::new()
                }
            },
            other => {
                self.state = other;
                Vec::new()
            },
        }
    }

    fn handle_mission_ack(&mut self) -> (out: Vec<OutboundMessage>)
        ensures
            final(self)@.wf(),
            (final(self)@, out@) == old(self)@.on_mission_ack(),
    {
        proof {
            use_type_invariant(&*self);
        }
        let taken = self.take_state();
        match taken {
            MissionState::Clearing => Vec::new(),
            MissionState::Uploading { waypoints, current_index } => {
                if current_index == waypoints.len() {
                    if self.pending_download {
                        self.pending_download = false;
                        self.send_mission_request_list()
                    } else {
                        Vec::new()
                    }
                } else {
                    self.state = MissionState::Uploading { waypoints, current_index };
                    Vec::new()
                }
            },
            other => {
                self.state = other;
                Vec::new()
            },
        }
    }

    /// Starts reading the vehicle's mission: `MISSION_REQUEST_LIST`, then wait
    /// for the count.
    pub fn send_mission_request_list(&mut self) -> (out: Vec<OutboundMessage>)
        ensures
            final(self)@.wf(),
            (final(self)@, out@) == old(self)@.on_request_list_sent(),
    {
        proof {
            use_type_invariant(&*self);
        }
        self.state = MissionState::WaitingCount;
        one(build_request_list())
    }

    /// The `MISSION_COUNT` that starts uploading `waypoints`.
    pub fn send_mission_count(waypoints: &Vec<Waypoint>) -> (m: OutboundMessage)
        requires
            waypoints.len() <= u16::MAX,
        ensures
            m == mission_count_message(waypoints.len() as u16),
    {
        build_mission_count(waypoints.len() as u16)
    }

    /// Handles an operator's request to replace the vehicle's mission.
    pub fn handle_set_waypoint_list(&mut self, waypoints: Vec<Waypoint>) -> (out: Vec<OutboundMessage>)
        ensures
            final(self)@.wf(),
            (final(self)@, out@) == old(self)@.on_set_waypoint_list(waypoints@),
    {
        proof {
            use_type_invariant(&*self);
        }
        if !self.is_idle() {
            return Vec::new();
        }
        if waypoints.len() > 65535 {
            return Vec::new();
        }
        self.pending_download = false;
        if waypoints.len() == 0 {
            return self.handle_clear_waypoint_list();
        }
        let count_msg = Self::send_mission_count(&waypoints);
        self.state = MissionState::Uploading { waypoints, current_index: 0 };
        let mut out = one(build_clear_all());
        out.push(count_msg);
        out
    }

    /// Handles an operator's request to clear the vehicle's mission.
    pub fn handle_clear_waypoint_list(&mut self) -> (out: Vec<OutboundMessage>)
        ensures
            final(self)@.wf(),
            (final(self)@, out@) == old(self)@.on_clear_waypoint_list(),
    {
        proof {
            use_type_invariant(&*self);
        }
        if !self.is_idle() {
            return Vec::new();
        }
        self.pending_download = false;
        self.state = MissionState::Clearing;
        one(build_clear_all())
    }

    /// Handles an operator's request to read the vehicle's mission.
    pub fn handle_request_waypoint_list(&mut self) -> (out: Vec<OutboundMessage>)
        ensures
            final(self)@.wf(),
            (final(self)@, out@) == old(self)@.on_request_waypoint_list(),
    {
        proof {
            use_type_invariant(&*self);
        }
        match self.state {
            MissionState::Idle => self.send_mission_request_list(),
            MissionState::Uploading { .. } => {
                self.pending_download = true;
                Vec::new()
            },
            _ => Vec::new(),
        }
    }

    /// Handles an operator's request to arm or disarm the vehicle.
    pub fn handle_arm_disarm(&mut self, arm: bool) -> (out: Vec<OutboundMessage>)
        ensures
            final(self)@.wf(),
            (final(self)@, out@) == old(self)@.on_arm_disarm(arm),
    {
        proof {
            use_type_invariant(&*self);
        }
        one(
            OutboundMessage::CommandLong {
                target_system: DEFAULT_TARGET_SYSTEM_ID,
                target_component: DEFAULT_TARGET_COMPONENT_ID,
                command: MAV_CMD_COMPONENT_ARM_DISARM,
                confirmation: 1,
                param1: if arm { 1u16 } else { 0u16 },
                param2: 0,
            },
        )
    }

    /// Handles an operator's request to switch flight mode.
    pub fn handle_set_mode(&mut self, mode: String) -> (out: Vec<OutboundMessage>)
        ensures
            final(self)@.wf(),
            (final(self)@, out@) == old(self)@.on_set_mode(mode@),
    {
        proof {
            use_type_invariant(&*self);
        }
        match rover_mode_number(&mode) {
            Some(number) => one(
                OutboundMessage::CommandLong {
                    target_system: DEFAULT_TARGET_SYSTEM_ID,
                    target_component: DEFAULT_TARGET_COMPONENT_ID,
                    command: MAV_CMD_DO_SET_MODE,
                    confirmation: 0,
                    param1: 1,
                    param2: number,
                },
            ),
            None => Vec::new(),
        }
    }

    /// Handles any event; what the actor's run loop does with each one.
    pub fn handle(&mut self, msg: MavlinkActorMessage) -> (out: Vec<OutboundMessage>)
        ensures
            final(self)@.wf(),
            (final(self)@, out@) == old(self)@.step(msg@),
    {
        proof {
            use_type_invariant(&*self);
        }
        match msg {
            MavlinkActorMessage::MavlinkMessage(m) => self.handle_mavlink_message(m),
            MavlinkActorMessage::RequestWaypointList => self.handle_request_waypoint_list(),
            MavlinkActorMessage::ArmDisarm { arm } => self.handle_arm_disarm(arm),
            MavlinkActorMessage::SetMode { mode } => self.handle_set_mode(mode),
            MavlinkActorMessage::SetWaypointList { waypoints } => self.handle_set_waypoint_list(
                waypoints,
            ),
            MavlinkActorMessage::ClearWaypointList => self.handle_clear_waypoint_list(),
        }
    }

    /// Handles a run of events in turn, as the run loop does when every
    /// message is sent, and returns all the messages in the order they were
    /// handed out.
    pub fn handle_events(&mut self, events: Vec<MavlinkActorMessage>) -> (out: Vec<OutboundMessage>)
        ensures
            final(self)@.wf(),
            (final(self)@, out@) == run_events(
                old(self)@,
                events@.map_values(|e: MavlinkActorMessage| e@),
            ),
    {
        proof {
            use_type_invariant(&*self);
        }
        let ghost start = self@;
        let ghost all = events@.map_values(|e: MavlinkActorMessage| e@);
        let mut events = events;
        let mut out: Vec<OutboundMessage> = Vec::new();
        let ghost mut done: nat = 0;
        while events.len() > 0
            invariant
                self@.wf(),
                start.wf(),
                done + events@.len() == all.len(),
                events@.map_values(|e: MavlinkActorMessage| e@) == all.skip(done as int),
                (self@, out@) == run_events(start, all.take(done as int)),
            decreases events@.len(),
        {
            let ghost before = self@;
            let ghost before_out = out@;
            let ghost remaining = events@;
            let event = events.remove(0);
            proof {
                reveal_with_fuel(run_events, 2);
                assert(all[done as int] == event@) by {
                    assert(all.skip(done as int)[0] == all[done as int]);
                }
                lemma_runs_compose(start, all.take(done as int), seq![event@]);
                assert(all.take(done as int) + seq![event@] =~= all.take((done + 1) as int));
                assert(seq![event@].drop_first() =~= Seq::<ActorEvent>::empty());
                assert(run_events(before, seq![event@]).0 == before.step(event@).0);
                assert(before.step(event@).1 + Seq::<OutboundMessage>::empty() =~= before.step(
                    event@,
                ).1);
                assert forall|i: int| 0 <= i < events@.len() implies #[trigger] events@[i]@ == all[done
                    + 1 + i] by {
                    assert(events@[i] == remaining[i + 1]);
                    assert(remaining.map_values(|e: MavlinkActorMessage| e@)[i + 1] == all.skip(
                        done as int,
                    )[i + 1]);
                }
                assert(events@.map_values(|e: MavlinkActorMessage| e@) =~= all.skip((done + 1) as int));
            }
            let mut produced = self.handle(event);
            out.append(&mut produced);
            proof {
                done = done + 1;
            }
        }
        proof {
            assert(all.take(done as int) =~= all);
        }
        out
    }

    /// Reports that `msg`, which the actor asked to send, could not be sent.
    pub fn send_failed(&mut self, msg: &OutboundMessage)
        ensures
            final(self)@.wf(),
            final(self)@ == old(self)@.after_send_failure(*msg),
    {
        proof {
            use_type_invariant(&*self);
        }
        if msg.is_mission_message() {
            self.state = MissionState::Idle;
        }
    }

    fn take_state(&mut self) -> (s: MissionState)
        ensures
            s@ == old(self)@.state,
            final(self)@ == old(self)@.with_state(MissionStateView::Idle),
    {
        proof {
            use_type_invariant(&*self);
        }
        let mut s = MissionState::Idle;
        std::mem::swap(&mut s, &mut self.state);
        s
    }
}

} // verus!
