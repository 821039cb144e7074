//! The record kept for each node of the mesh, and the changes a frame can make to it.

use vstd::prelude::*;
use std::collections::HashMap;
use std::collections::VecDeque;
use crate::frame::{DeviceMetrics, EnvironmentMetrics, Neighbor, NodeInfo, Position};

verus! {

/// One sample of a node's telemetry series.
#[derive(Clone, Copy, Debug, PartialEq, Eq)]
pub struct TimeSeriesData {
    pub timestamp: u64,
    pub device: DeviceMetrics,
    pub environment: EnvironmentMetrics,
    pub rssi: i32,
    pub snr_bits: u32,
}

/// What the envelope of a frame says about its reception.
#[derive(Clone, Copy, Debug, PartialEq, Eq)]
pub struct Reception {
    pub seen_at: u64,
    pub rssi: i32,
    pub snr_bits: u32,
}

/// Everything known about one node: what the radio reports of it, and what was learnt
/// from the frames heard from it.
#[derive(Clone, Debug, PartialEq, Eq)]
pub struct ComprehensiveNode {
    pub id: u32,
    pub node_info: NodeInfo,
    pub last_seen: u64,
    pub neighbors: Vec<Neighbor>,
    pub last_snr_bits: u32,
    pub last_rssi: i32,
    pub route_list: HashMap<u32, Vec<u32>>,
    /// The telemetry samples in the order of their arrival. Every sample is kept.
    pub timeseries: VecDeque<TimeSeriesData>,
    pub timeseries_start: u64,
}

/// The mathematical content of a `ComprehensiveNode`.
pub struct NodeView {
    pub id: u32,
    pub node_info: NodeInfo,
    pub last_seen: u64,
    pub neighbors: Seq<Neighbor>,
    pub last_snr_bits: u32,
    pub last_rssi: i32,
    pub route_list: Map<u32, Seq<u32>>,
    pub timeseries: Seq<TimeSeriesData>,
    pub timeseries_start: u64,
}

/// One change to a node's record.
#[derive(Clone, Debug, PartialEq, Eq)]
pub enum NodeChange {
    /// A new position fix.
    Position(Position),
    /// New device metrics, which also become a sample of the telemetry series.
    DeviceMetrics(DeviceMetrics),
    /// New environment metrics, which become a sample of the telemetry series.
    EnvironmentMetrics(EnvironmentMetrics),
    /// A new neighbor table, which takes the place of the old one.
    Neighbors(Vec<Neighbor>),
    /// The hops of the route to a destination.
    Route(u32, Vec<u32>),
    /// The radio's own record of the node, which takes the place of everything known:
    /// nothing of the old record is kept, not even the address it bore.
    Record(NodeInfo),
}

/// The mathematical content of a `NodeChange`.
pub enum NodeChangeView {
    Position(Position),
    DeviceMetrics(DeviceMetrics),
    EnvironmentMetrics(EnvironmentMetrics),
    Neighbors(Seq<Neighbor>),
    Route(u32, Seq<u32>),
    Record(NodeInfo),
}

impl View for NodeChange {
    type V = NodeChangeView;

    open spec fn view(&self) -> NodeChangeView {
        match *self {
            NodeChange::Position(p) => NodeChangeView::Position(p),
            NodeChange::DeviceMetrics(d) => NodeChangeView::DeviceMetrics(d),
            NodeChange::EnvironmentMetrics(e) => NodeChangeView::EnvironmentMetrics(e),
            NodeChange::Neighbors(n) => NodeChangeView::Neighbors(n@),
            NodeChange::Route(dest, hops) => NodeChangeView::Route(dest, hops@),
            NodeChange::Record(info) => NodeChangeView::Record(info),
        }
    }
}

/// The hop lists of a route table.
pub open spec fn routes_view(routes: Map<u32, Vec<u32>>) -> Map<u32, Seq<u32>> {
    routes.map_values(|hops: Vec<u32>| hops@)
}

impl View for ComprehensiveNode {
    type V = NodeView;

    open spec fn view(&self) -> NodeView {
        NodeView {
            id: self.id,
            node_info: self.node_info,
            last_seen: self.last_seen,
            neighbors: self.neighbors@,
            last_snr_bits: self.last_snr_bits,
            last_rssi: self.last_rssi,
            route_list: routes_view(self.route_list@),
            timeseries: self.timeseries@,
            timeseries_start: self.timeseries_start,
        }
    }
}

impl NodeView {
    /// The record of a node of which only the address is known: no identity, no position,
    /// no metrics, no neighbors, no routes, never seen.
    pub open spec fn with_id(id: u32) -> NodeView {
        NodeView {
            id,
            node_info: NodeInfo::spec_with_num(id),
            last_seen: 0,
            neighbors: Seq::empty(),
            last_snr_bits: 0,
            last_rssi: 0,
            route_list: Map::empty(),
            timeseries: Seq::empty(),
            timeseries_start: 0,
        }
    }

    /// Whether an identity frame has been received for the node.
    pub open spec fn is_confirmed(self) -> bool {
        self.node_info.user is Some
    }

    /// The record after the node was heard: the reception facts take the place of the old.
    pub open spec fn heard(self, rx: Reception) -> NodeView {
        NodeView { last_seen: rx.seen_at, last_rssi: rx.rssi, last_snr_bits: rx.snr_bits, ..self }
    }

    /// The record with one more sample in its telemetry series. The first sample also sets
    /// the time at which the series starts.
    pub open spec fn sampled(self, sample: TimeSeriesData) -> NodeView {
        NodeView {
            timeseries: self.timeseries.push(sample),
            timeseries_start: if self.timeseries_start == 0 {
                sample.timestamp
            } else {
                self.timeseries_start
            },
            ..self
        }
    }

    /// The record after `change` arrived with reception facts `rx`.
    pub open spec fn changed(self, change: NodeChangeView, rx: Reception) -> NodeView {
        match change {
            NodeChangeView::Position(p) => NodeView {
                node_info: NodeInfo { position: Some(p), ..self.node_info },
                ..self
            }.heard(rx),
            NodeChangeView::DeviceMetrics(d) => NodeView {
                node_info: NodeInfo { device_metrics: Some(d), ..self.node_info },
                ..self
            }.sampled(
                TimeSeriesData {
                    timestamp: rx.seen_at,
                    device: d,
                    environment: EnvironmentMetrics::spec_empty(),
                    rssi: rx.rssi,
                    snr_bits: rx.snr_bits,
                },
            ).heard(rx),
            NodeChangeView::EnvironmentMetrics(e) => self.sampled(
                TimeSeriesData {
                    timestamp: rx.seen_at,
                    device: DeviceMetrics::spec_empty(),
                    environment: e,
                    rssi: rx.rssi,
                    snr_bits: rx.snr_bits,
                },
            ).heard(rx),
            NodeChangeView::Neighbors(n) => NodeView { neighbors: n, ..self }.heard(rx),
            NodeChangeView::Route(dest, hops) => NodeView {
                route_list: self.route_list.insert(dest, hops),
                ..self
            }.heard(rx),
            NodeChangeView::Record(info) => NodeView {
                node_info: info,
                ..NodeView::with_id(info.num)
            }.heard(rx),
        }
    }

    /// The record with `user` as its identity, seen at `now`.
    pub open spec fn identified(self, user: crate::frame::User, now: u64) -> NodeView {
        NodeView {
            node_info: NodeInfo { user: Some(user), ..self.node_info },
            last_seen: now,
            ..self
        }
    }
}

impl ComprehensiveNode {
    /// The record of a node of which only the address is known.
    pub fn with_id(id: u32) -> (node: ComprehensiveNode)
        ensures
            node@ == NodeView::with_id(id),
    {
        let node = ComprehensiveNode {
            id,
            node_info: NodeInfo::with_num(id),
            last_seen: 0,
            neighbors: Vec::new(),
            last_snr_bits: 0,
            last_rssi: 0,
            route_list: HashMap::new(),
            timeseries: VecDeque::new(),
            timeseries_start: 0,
        };
        proof {
            assert(node@.route_list =~= Map::empty());
        }
        node
    }

    fn push_sample(&mut self, sample: TimeSeriesData)
        ensures
            final(self)@ == old(self)@.sampled(sample),
    {
        self.timeseries.push_back(sample);
        if self.timeseries_start == 0 {
            self.timeseries_start = sample.timestamp;
        }
    }

    /// Makes one change to the record and notes the reception.
    pub fn apply(&mut self, change: NodeChange, rx: Reception)
        ensures
            final(self)@ == old(self)@.changed(change@, rx),
    {
        match change {
            NodeChange::Position(p) => {
                self.node_info.position = Some(p);
            },
            NodeChange::DeviceMetrics(d) => {
                self.node_info.device_metrics = Some(d);
                self.push_sample(
                    TimeSeriesData {
                        timestamp: rx.seen_at,
                        device: d,
                        environment: EnvironmentMetrics::empty(),
                        rssi: rx.rssi,
                        snr_bits: rx.snr_bits,
                    },
                );
            },
            NodeChange::EnvironmentMetrics(e) => {
                self.push_sample(
                    TimeSeriesData {
                        timestamp: rx.seen_at,
                        device: DeviceMetrics::empty(),
                        environment: e,
                        rssi: rx.rssi,
                        snr_bits: rx.snr_bits,
                    },
                );
            },
            NodeChange::Neighbors(n) => {
                self.neighbors = n;
            },
            NodeChange::Route(dest, hops) => {
                self.route_list.insert(dest, hops);
                proof {
                    assert(routes_view(self.route_list@) =~= routes_view(
                        old(self).route_list@,
                    ).insert(dest, hops@));
                }
            },
            NodeChange::Record(info) => {
                *self = ComprehensiveNode::with_id(info.num);
                self.node_info = info;
            },
        }
        self.last_seen = rx.seen_at;
        self.last_rssi = rx.rssi;
        self.last_snr_bits = rx.snr_bits;
    }

    /// Whether an identity frame has been received for the node. Until then the record
    /// is implied by what was heard of the node.
    pub fn is_confirmed(&self) -> (confirmed: bool)
        ensures
            confirmed == self@.is_confirmed(),
    {
        self.node_info.user.is_some()
    }

    /// Notes that the node was heard.
    pub fn note_heard(&mut self, rx: Reception)
        ensures
            final(self)@ == old(self)@.heard(rx),
    {
        self.last_seen = rx.seen_at;
        self.last_rssi = rx.rssi;
        self.last_snr_bits = rx.snr_bits;
    }

    /// A copy of the record.
    pub fn duplicate(&self) -> (copy: ComprehensiveNode)
        ensures
            copy@ == self@,
    {
        let neighbors = self.neighbors.clone();
        let timeseries = self.timeseries.clone();
        proof {
            assert(neighbors@ =~= self.neighbors@);
            assert(timeseries@ =~= self.timeseries@);
        }
        ComprehensiveNode {
            id: self.id,
            node_info: self.node_info.duplicate(),
            last_seen: self.last_seen,
            neighbors,
            last_snr_bits: self.last_snr_bits,
            last_rssi: self.last_rssi,
            route_list: self.route_list.clone(),
            timeseries,
            timeseries_start: self.timeseries_start,
        }
    }

    /// Sets the identity of the node and notes the time.
    pub fn identify(&mut self, user: crate::frame::User, now: u64)
        ensures
            final(self)@ == old(self)@.identified(user, now),
    {
        self.node_info.user = Some(user);
        self.last_seen = now;
    }
}

/// Lemma: of two changes to one field of a record, the later one decides what the field
/// holds, and the reception facts are those of the later change whatever the two changed.
pub proof fn lemma_later_change_wins(
    node: NodeView,
    first: NodeChangeView,
    first_rx: Reception,
    second: NodeChangeView,
    second_rx: Reception,
)
    ensures
        ({
            let after = node.changed(first, first_rx).changed(second, second_rx);
            &&& after.id == match (first, second) {
                (_, NodeChangeView::Record(info)) => info.num,
                (NodeChangeView::Record(info), _) => info.num,
                _ => node.id,
            }
            &&& after.last_seen == second_rx.seen_at
            &&& after.last_rssi == second_rx.rssi
            &&& after.last_snr_bits == second_rx.snr_bits
            &&& second matches NodeChangeView::Position(fix) ==> after.node_info.position == Some(
                fix,
            )
            &&& second matches NodeChangeView::DeviceMetrics(metrics)
                ==> after.node_info.device_metrics == Some(metrics)
            &&& second matches NodeChangeView::Neighbors(neighbors) ==> after.neighbors
                == neighbors
            &&& second matches NodeChangeView::Route(destination, hops)
                ==> after.route_list.contains_key(destination) && after.route_list[destination]
                == hops
            &&& second matches NodeChangeView::Record(info) ==> after == NodeView {
                node_info: info,
                ..NodeView::with_id(info.num)
            }.heard(second_rx)
        }),
{
}

/// Lemma: a sample of telemetry is never lost: each reading adds one sample to the end of
/// the series, and the series keeps the time of its first sample.
pub proof fn lemma_samples_accumulate(node: NodeView, sample: TimeSeriesData)
    ensures
        node.sampled(sample).timeseries.len() == node.timeseries.len() + 1,
        node.sampled(sample).timeseries.last() == sample,
        node.sampled(sample).timeseries.drop_last() == node.timeseries,
        node.timeseries_start != 0 ==> node.sampled(sample).timeseries_start
            == node.timeseries_start,
        node.timeseries_start == 0 ==> node.sampled(sample).timeseries_start == sample.timestamp,
{
    assert(node.timeseries.push(sample).drop_last() =~= node.timeseries);
}

} // verus!
