//! Decides what the bridge publishes to operators about mission traffic seen
//! on the vehicle link: download progress, upload requests and their end, and
//! everything else as telemetry.

use vstd::prelude::*;
use crate::protocol::{build_waypoint, waypoint_from_item, InboundMessage, Waypoint, WaypointWrite};

verus! {

/// One publication decided by the forwarder.
#[derive(Clone, Copy, Debug, PartialEq, Eq, Structural)]
pub enum Publication {
    /// A download of `total` items begins (topic `get_list`).
    DownloadStart { total: u16 },
    /// One downloaded item, with the announced total (topic `get_list`).
    Waypoint { total_count: u16, waypoint: Waypoint },
    /// The last announced item arrived: the received list is complete
    /// (topic `get_list`, carrying [`MissionForwarder::received`]).
    DownloadComplete,
    /// The vehicle asked for an item of an upload (topic `set_list`).
    UploadRequest(WaypointWrite),
    /// The vehicle acknowledged the end of an upload (topic `set_list`).
    UploadComplete,
    /// The message is passed on as telemetry.
    Telemetry,
}

/// The forwarder's memory of the mission traffic.
pub struct MissionForwarder {
    received: Vec<Waypoint>,
    expected_total: u16,
    is_uploading: bool,
}

/// The mathematical value of a [`MissionForwarder`].
pub struct ForwarderView {
    /// Items received since the last `MISSION_COUNT`.
    pub received: Seq<Waypoint>,
    /// The count last announced.
    pub expected_total: u16,
    /// An upload request has been seen and its acknowledgement not yet.
    pub is_uploading: bool,
}

impl View for MissionForwarder {
    type V = ForwarderView;

    closed spec fn view(&self) -> ForwarderView {
        ForwarderView {
            received: self.received@,
            expected_total: self.expected_total,
            is_uploading: self.is_uploading,
        }
    }
}

impl ForwarderView {
    /// What one message from the vehicle does to the forwarder, and what it publishes.
    pub open spec fn forward(self, msg: InboundMessage) -> (ForwarderView, Seq<Publication>) {
        match msg {
            InboundMessage::MissionCount { count } => (
                ForwarderView { received: Seq::empty(), expected_total: count, ..self },
                seq![Publication::DownloadStart { total: count }],
            ),
            InboundMessage::MissionItemInt { seq, x, y, z_bits } => {
                let wp = waypoint_from_item(seq, x, y, z_bits);
                let pubs = seq![Publication::Waypoint { total_count: self.expected_total, waypoint: wp }];
                (
                    ForwarderView { received: self.received.push(wp), ..self },
                    if seq + 1 == self.expected_total {
                        pubs.push(Publication::DownloadComplete)
                    } else {
                        pubs
                    },
                )
            },
            InboundMessage::MissionClearAll => (self, Seq::empty()),
            InboundMessage::MissionRequest { seq } => (
                ForwarderView { is_uploading: true, ..self },
                seq![Publication::UploadRequest(WaypointWrite { seq })],
            ),
            InboundMessage::MissionAck => {
                if self.is_uploading {
                    (
                        ForwarderView { is_uploading: false, ..self },
                        seq![Publication::UploadComplete],
                    )
                } else {
                    (self, Seq::empty())
                }
            },
            _ => (self, seq![Publication::Telemetry]),
        }
    }
}

impl MissionForwarder {
    /// A forwarder that has seen nothing.
    pub fn new() -> (f: MissionForwarder)
        ensures
            f@ == (ForwarderView { received: Seq::empty(), expected_total: 0, is_uploading: false }),
    {
        MissionForwarder { received: Vec::new(), expected_total: 0, is_uploading: false }
    }

    /// The items received since the last `MISSION_COUNT`.
    pub fn received(&self) -> (r: &Vec<Waypoint>)
        ensures
            r@ == self@.received,
    {
        &self.received
    }

    /// Takes note of a message from the vehicle and returns what to publish, in order.
    pub fn forward(&mut self, msg: InboundMessage) -> (pubs: Vec<Publication>)
        ensures
            (final(self)@, pubs@) == old(self)@.forward(msg),
    {
        let mut pubs: Vec<Publication> = Vec::new();
        match msg {
            InboundMessage::MissionCount { count } => {
                self.expected_total = count;
                self.received = Vec::new();
                pubs.push(Publication::DownloadStart { total: count });
            },
            InboundMessage::MissionItemInt { seq, x, y, z_bits } => {
                let wp = build_waypoint(seq, x, y, z_bits);
                self.received.push(wp);
                pubs.push(Publication::Waypoint { total_count: self.expected_total, waypoint: wp });
                if seq as u32 + 1 == self.expected_total as u32 {
                    pubs.push(Publication::DownloadComplete);
                }
            },
            InboundMessage::MissionClearAll => {},
            InboundMessage::MissionRequest { seq } => {
                self.is_uploading = true;
                pubs.push(Publication::UploadRequest(WaypointWrite { seq }));
            },
            InboundMessage::MissionAck => {
                if self.is_uploading {
                    self.is_uploading = false;
                    pubs.push(Publication::UploadComplete);
                }
            },
            _ => {
                pubs.push(Publication::Telemetry);
            },
        }
        pubs
    }
}

/// What the forwarder publishes and keeps over a run of messages.
pub open spec fn forward_all(f: ForwarderView, msgs: Seq<InboundMessage>) -> (ForwarderView, Seq<Publication>)
    decreases msgs.len(),
{
    if msgs.len() == 0 {
        (f, Seq::empty())
    } else {
        let (g, first) = f.forward(msgs[0]);
        let (h, rest) = forward_all(g, msgs.drop_first());
        (h, first + rest)
    }
}

/// The messages of a download of `items`: the count, then each item.
pub open spec fn download_messages(items: Seq<Waypoint>) -> Seq<InboundMessage> {
    seq![InboundMessage::MissionCount { count: items.len() as u16 }] + item_messages(items)
}

/// `MISSION_ITEM_INT` messages carrying `items`, in order.
pub open spec fn item_messages(items: Seq<Waypoint>) -> Seq<InboundMessage> {
    items.map_values(
        |w: Waypoint|
            InboundMessage::MissionItemInt { seq: w.seq, x: w.lat_e7, y: w.lon_e7, z_bits: w.alt_bits },
    )
}

/// The publications for `items` arriving after a count of `total`: each item,
/// with the completion notice after the one numbered `total - 1`.
pub open spec fn item_publications(items: Seq<Waypoint>, total: u16) -> Seq<Publication>
    decreases items.len(),
{
    if items.len() == 0 {
        Seq::empty()
    } else {
        let w = items[0];
        let one = seq![Publication::Waypoint { total_count: total, waypoint: w }];
        (if w.seq + 1 == total {
            one.push(Publication::DownloadComplete)
        } else {
            one
        }) + item_publications(items.drop_first(), total)
    }
}

/// After items arrive, the forwarder holds them behind those it had, keeps the
/// announced total and the upload flag, and publishes each item in turn.
pub proof fn lemma_items_accumulate(f: ForwarderView, items: Seq<Waypoint>)
    ensures
        forward_all(f, item_messages(items)).0 == (ForwarderView {
            received: f.received + items,
            ..f
        }),
        forward_all(f, item_messages(items)).1 == item_publications(items, f.expected_total),
    decreases items.len(),
{
    if items.len() > 0 {
        let w = items[0];
        let g = f.forward(item_messages(items)[0]).0;
        assert(item_messages(items).drop_first() =~= item_messages(items.drop_first()));
        assert(waypoint_from_item(w.seq, w.lat_e7, w.lon_e7, w.alt_bits) == w);
        lemma_items_accumulate(g, items.drop_first());
        assert(f.received.push(w) + items.drop_first() =~= f.received + items);
    } else {
        assert(f.received + items =~= f.received);
    }
}

/// A complete download, the count followed by items numbered `0..n` in
/// order, leaves the forwarder holding exactly those items, announces the
/// start, publishes every item under the announced total, and marks the
/// download complete once, after the last item.
pub proof fn lemma_download_is_published_whole(f: ForwarderView, items: Seq<Waypoint>)
    requires
        0 < items.len() <= u16::MAX,
        forall|i: int| 0 <= i < items.len() ==> #[trigger] items[i].seq == i,
    ensures
        forward_all(f, download_messages(items)).0.received == items,
        forward_all(f, download_messages(items)).1 == seq![
            Publication::DownloadStart { total: items.len() as u16 },
        ] + item_publications(items, items.len() as u16),
        item_publications(items, items.len() as u16).last() == Publication::DownloadComplete,
        item_publications(items, items.len() as u16).len() == items.len() + 1,
{
    let msgs = download_messages(items);
    let g = f.forward(msgs[0]).0;
    assert(msgs.drop_first() =~= item_messages(items));
    lemma_items_accumulate(g, items);
    assert(Seq::<Waypoint>::empty() + items =~= items);
    lemma_publication_shape(items, items.len() as u16, 0);
}

/// `item_publications` of items numbered `start..start + items.len()`: one
/// publication per item, plus the completion notice exactly when the last
/// item is the `total - 1`th.
proof fn lemma_publication_shape(items: Seq<Waypoint>, total: u16, start: int)
    requires
        forall|i: int| 0 <= i < items.len() ==> #[trigger] items[i].seq == start + i,
        0 <= start,
        start + items.len() == total,
        items.len() > 0,
    ensures
        item_publications(items, total).len() == items.len() + 1,
        item_publications(items, total).last() == Publication::DownloadComplete,
    decreases items.len(),
{
    let w = items[0];
    if items.len() == 1 {
        assert(item_publications(items.drop_first(), total) =~= Seq::<Publication>::empty());
    } else {
        assert(items[0].seq == start);
        lemma_publication_shape(items.drop_first(), total, start + 1);
    }
}

/// The end of an upload is published once: the acknowledgement that follows
/// upload requests is announced, a repeated acknowledgement is not.
pub proof fn lemma_upload_end_published_once(f: ForwarderView, seq: u16)
    ensures
        f.forward(InboundMessage::MissionRequest { seq }).0.forward(InboundMessage::MissionAck).1
            == seq![Publication::UploadComplete],
        f.forward(InboundMessage::MissionRequest { seq }).0.forward(InboundMessage::MissionAck).0.forward(
            InboundMessage::MissionAck,
        ).1 == Seq::<Publication>::empty(),
{
}

/// Each upload request from the vehicle is published once, as a request for
/// exactly the waypoint the vehicle asked for, and marks an upload as under
/// way; what was downloaded is kept.
pub proof fn lemma_upload_request_names_requested_item(f: ForwarderView, seq: u16)
    ensures
        f.forward(InboundMessage::MissionRequest { seq }).1.len() == 1,
        (f.forward(InboundMessage::MissionRequest { seq }).1[0] matches Publication::UploadRequest(w)
            && w.seq == seq),
        f.forward(InboundMessage::MissionRequest { seq }).0.is_uploading,
        f.forward(InboundMessage::MissionRequest { seq }).0.received == f.received,
        f.forward(InboundMessage::MissionRequest { seq }).0.expected_total == f.expected_total,
{
}

/// A count starts a download: it is announced with that total, the items kept
/// so far are dropped and the total is remembered. Each item is then
/// published with that total and exactly the number and coordinates it came
/// with, and kept behind the earlier ones; the completion notice follows it
/// exactly when its number is the last of the total.
pub proof fn lemma_download_publications_carry_their_data(
    f: ForwarderView,
    count: u16,
    seq: u16,
    x: i32,
    y: i32,
    z_bits: u32,
)
    ensures
        f.forward(InboundMessage::MissionCount { count }).1 == seq![
            Publication::DownloadStart { total: count },
        ],
        f.forward(InboundMessage::MissionCount { count }).0.received.len() == 0,
        f.forward(InboundMessage::MissionCount { count }).0.expected_total == count,
        f.forward(InboundMessage::MissionItemInt { seq, x, y, z_bits }).1[0] == (
        Publication::Waypoint {
            total_count: f.expected_total,
            waypoint: Waypoint { seq, lat_e7: x, lon_e7: y, alt_bits: z_bits },
        }),
        f.forward(InboundMessage::MissionItemInt { seq, x, y, z_bits }).1.len() == (if seq + 1
            == f.expected_total {
            2int
        } else {
            1int
        }),
        seq + 1 == f.expected_total ==> f.forward(InboundMessage::MissionItemInt { seq, x, y, z_bits }).1[1]
            == Publication::DownloadComplete,
        f.forward(InboundMessage::MissionItemInt { seq, x, y, z_bits }).0.received == f.received.push(
            (Waypoint { seq, lat_e7: x, lon_e7: y, alt_bits: z_bits }),
        ),
{
}

/// Messages outside the mission protocol, and the vehicle's upload requests
/// in their newer form, are passed on as telemetry and change nothing.
pub proof fn lemma_other_traffic_is_telemetry(f: ForwarderView, seq: u16)
    ensures
        f.forward(InboundMessage::Other) == (f, seq![Publication::Telemetry]),
        f.forward(InboundMessage::MissionRequestInt { seq }) == (f, seq![Publication::Telemetry]),
{
}

} // verus!
