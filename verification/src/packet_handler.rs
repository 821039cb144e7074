//! The frame interpreter: what each frame from the radio means for the dashboard's state.
//!
//! Interpreting a frame changes nothing. It yields at most one update, for the caller to
//! apply, and a notice that says what there is to log about the frame.

use vstd::prelude::*;
use std::collections::HashMap;
use crate::codec::{
    classify_port, decode_neighbor_info, decode_position, decode_route_discovery, decode_routing,
    decode_telemetry, decode_text, decode_user, hex_value, neighbor_info_payload, parse_hex,
    port_of_number, position_payload, route_discovery_payload, routing_payload,
    severity_of_level, telemetry_payload, trim_leading_bangs, user_payload,
    without_leading_bangs,
};
use crate::config::{ConfigBlock, ModuleBlock};
use crate::consts::DEFAULT_CHANNEL_NAME;
use crate::frame::{
    Channel, ChannelSettings, ChannelSettingsView, ChannelView, Data, MeshPacket, Neighbor,
    NeighborInfo, PacketDestination, PacketPayload, Port, Position, RoutingReport, Severity,
    TelemetryReading, User, BROADCAST_ADDRESS,
};
use crate::ipc::{IPCMessage, RadioFrame};
use crate::tabs::messages::{MessageEnvelope, MessageView};
use crate::node::{ComprehensiveNode, NodeChange, NodeChangeView, NodeView, Reception};
use crate::util::get_secs;

verus! {

/// The one update that a frame asks for.
#[derive(Debug, PartialEq)]
pub enum PacketResponse {
    /// Change the record of a node, making the record first where there is none.
    NodeUpdate(u32, NodeChange, Reception),
    /// Set the identity of a node, making the record first where there is none.
    UserUpdate(u32, User),
    /// Add a text message to the log.
    InboundMessage(MessageEnvelope),
    /// Note the address of the radio itself.
    OurAddress(u32),
    /// Merge a block of the radio's settings into the configuration store.
    ConfigUpdate(ConfigBlock),
    /// Merge a block of a module's settings into the configuration store.
    ModuleConfigUpdate(ModuleBlock),
    /// Put a channel into the channel table of the configuration store.
    ChannelUpdate(Channel),
}

/// The mathematical content of a `PacketResponse`.
pub enum ResponseView {
    NodeUpdate(u32, NodeChangeView, Reception),
    UserUpdate(u32, User),
    InboundMessage(MessageView),
    OurAddress(u32),
    ConfigUpdate(ConfigBlock),
    ModuleConfigUpdate(ModuleBlock),
    ChannelUpdate(ChannelView),
}

impl View for PacketResponse {
    type V = ResponseView;

    open spec fn view(&self) -> ResponseView {
        match *self {
            PacketResponse::NodeUpdate(id, change, rx) => ResponseView::NodeUpdate(id, change@, rx),
            PacketResponse::UserUpdate(id, user) => ResponseView::UserUpdate(id, user),
            PacketResponse::InboundMessage(m) => ResponseView::InboundMessage(m@),
            PacketResponse::OurAddress(id) => ResponseView::OurAddress(id),
            PacketResponse::ConfigUpdate(b) => ResponseView::ConfigUpdate(b),
            PacketResponse::ModuleConfigUpdate(b) => ResponseView::ModuleConfigUpdate(b),
            PacketResponse::ChannelUpdate(c) => ResponseView::ChannelUpdate(c@),
        }
    }
}

/// What there is to log about a frame.
#[derive(Debug, Clone, Copy, PartialEq, Eq)]
pub enum Notice {
    /// The payload sent to this port does not decode.
    DecodeFailure(Port),
    /// The identity names its node by a string that is no hexadecimal address above 0.
    BadNodeId,
    /// A text message came from a node of which there is no record.
    UnknownSender(u32),
    /// A route came from a node of which there is no record.
    UnknownRouteSource(u32),
    /// The packet went to a port that the interpreter does not know.
    UnknownPort(i32),
    /// The frame is of a kind that the interpreter does not know.
    UnknownFrame,
    /// The packet sent under this request id was delivered.
    Delivered(u32),
    /// The packet sent under this request id was not delivered, for the reason given.
    RoutingError(u32, i32),
    /// A line of the radio's log, at the radio's level.
    RadioLog(i32),
    /// The state of the transmit queue.
    QueueReport,
    /// The frame was understood; what it holds is worth a line.
    Noted,
    /// Nothing to log.
    Silent,
}

impl Notice {
    /// The severity at which the notice is logged, if it is logged at all.
    pub open spec fn spec_severity(self) -> Option<Severity> {
        match self {
            Notice::DecodeFailure(_) => Some(Severity::Error),
            Notice::BadNodeId => Some(Severity::Error),
            Notice::UnknownSender(_) => Some(Severity::Info),
            Notice::UnknownRouteSource(_) => Some(Severity::Error),
            Notice::UnknownPort(_) => Some(Severity::Error),
            Notice::UnknownFrame => Some(Severity::Error),
            Notice::Delivered(_) => Some(Severity::Debug),
            Notice::RoutingError(_, _) => Some(Severity::Info),
            Notice::RadioLog(level) => Some(severity_of_level(level)),
            Notice::QueueReport => Some(Severity::Debug),
            Notice::Noted => Some(Severity::Info),
            Notice::Silent => None,
        }
    }

    #[verifier::when_used_as_spec(spec_severity)]
    pub fn severity(self) -> (r: Option<Severity>)
        ensures
            r == self.spec_severity(),
    {
        match self {
            Notice::DecodeFailure(_) => Some(Severity::Error),
            Notice::BadNodeId => Some(Severity::Error),
            Notice::UnknownSender(_) => Some(Severity::Info),
            Notice::UnknownRouteSource(_) => Some(Severity::Error),
            Notice::UnknownPort(_) => Some(Severity::Error),
            Notice::UnknownFrame => Some(Severity::Error),
            Notice::Delivered(_) => Some(Severity::Debug),
            Notice::RoutingError(_, _) => Some(Severity::Info),
            Notice::RadioLog(level) => Some(crate::codec::classify_level(level)),
            Notice::QueueReport => Some(Severity::Debug),
            Notice::Noted => Some(Severity::Info),
            Notice::Silent => None,
        }
    }
}

/// What a frame means: the update it asks for, if any, and what there is to log.
#[derive(Debug, PartialEq)]
pub struct Interpretation {
    pub response: Option<PacketResponse>,
    pub notice: Notice,
}

/// The mathematical content of an `Interpretation`.
pub struct InterpretationView {
    pub response: Option<ResponseView>,
    pub notice: Notice,
}

/// The content of an update that may be absent.
pub open spec fn response_view(response: Option<PacketResponse>) -> Option<ResponseView> {
    match response {
        Some(r) => Some(r@),
        None => None,
    }
}

impl View for Interpretation {
    type V = InterpretationView;

    open spec fn view(&self) -> InterpretationView {
        InterpretationView { response: response_view(self.response), notice: self.notice }
    }
}

/// The records of a registry.
pub open spec fn nodes_view(nodes: Map<u32, ComprehensiveNode>) -> Map<u32, NodeView> {
    nodes.map_values(|n: ComprehensiveNode| n@)
}

/// A frame that asks for nothing.
pub open spec fn nothing(notice: Notice) -> InterpretationView {
    InterpretationView { response: None, notice }
}

/// A frame that asks for `response`.
pub open spec fn update(response: ResponseView) -> InterpretationView {
    InterpretationView { response: Some(response), notice: Notice::Noted }
}

/// What the envelope of a packet heard at `now` says about its reception.
pub open spec fn reception_of(packet: MeshPacket, now: u64) -> Reception {
    Reception { seen_at: now, rssi: packet.rx_rssi, snr_bits: packet.rx_snr_bits }
}

/// Whom a packet to address `to` is meant for: 0 is the radio itself, the highest address
/// is everyone, and any other address is the node that bears it.
pub open spec fn destination_of(to: u32) -> PacketDestination {
    if to == 0 {
        PacketDestination::Local
    } else if to == BROADCAST_ADDRESS {
        PacketDestination::Broadcast
    } else {
        PacketDestination::Node(to)
    }
}

/// The address that an identity's id string names: the hexadecimal number that follows its
/// exclamation marks. A string that is no such number names none, and neither does one
/// whose number is 0: no node has the address 0.
pub open spec fn node_id_of(id: Seq<char>) -> Option<u32> {
    match hex_value(without_leading_bangs(id)) {
        Some(n) => if n != 0 {
            Some(n)
        } else {
            None
        },
        None => None,
    }
}

/// Whether a channel is as the factory sets it: no name, and the one-byte key 1 that
/// stands for the default key. The slot does not matter.
pub open spec fn is_factory_default(channel: ChannelView) -> bool {
    &&& channel.settings is Some
    &&& channel.settings->0.name.len() == 0
    &&& channel.settings->0.psk == seq![1u8]
}

/// The channel as it is stored: a channel with the factory's settings gets a name to show,
/// and keeps everything else.
pub open spec fn labelled(channel: ChannelView) -> ChannelView {
    if is_factory_default(channel) {
        ChannelView {
            settings: Some(
                ChannelSettingsView { name: DEFAULT_CHANNEL_NAME@, ..channel.settings->0 },
            ),
            ..channel
        }
    } else {
        channel
    }
}

/// What a position packet means, given what its payload decodes to: the sender's record
/// takes the fix.
pub open spec fn position_outcome(packet: MeshPacket, decoded: Option<Position>, now: u64)
    -> InterpretationView {
    match decoded {
        Some(fix) => update(
            ResponseView::NodeUpdate(
                packet.from,
                NodeChangeView::Position(fix),
                reception_of(packet, now),
            ),
        ),
        None => nothing(Notice::DecodeFailure(Port::Position)),
    }
}

/// What a telemetry packet means, given what its payload decodes to: device and
/// environment metrics go to the sender's record, and any other reading is passed over in
/// silence.
pub open spec fn telemetry_outcome(
    packet: MeshPacket,
    decoded: Option<TelemetryReading>,
    now: u64,
) -> InterpretationView {
    match decoded {
        Some(TelemetryReading::Device(metrics)) => update(
            ResponseView::NodeUpdate(
                packet.from,
                NodeChangeView::DeviceMetrics(metrics),
                reception_of(packet, now),
            ),
        ),
        Some(TelemetryReading::Environment(metrics)) => update(
            ResponseView::NodeUpdate(
                packet.from,
                NodeChangeView::EnvironmentMetrics(metrics),
                reception_of(packet, now),
            ),
        ),
        Some(_) => nothing(Notice::Silent),
        None => nothing(Notice::DecodeFailure(Port::Telemetry)),
    }
}

/// The node whose record takes a neighbor table: the node the table is reported for,
/// where there is a record of it, and else the sender.
pub open spec fn neighbor_subject(
    packet: MeshPacket,
    reported: u32,
    nodes: Map<u32, NodeView>,
) -> u32 {
    if nodes.contains_key(reported) {
        reported
    } else {
        packet.from
    }
}

/// What a neighbor-info packet means, given what its payload decodes to: the subject's
/// record takes the table whole.
pub open spec fn neighbor_outcome(
    packet: MeshPacket,
    decoded: Option<(u32, Seq<Neighbor>)>,
    nodes: Map<u32, NodeView>,
    now: u64,
) -> InterpretationView {
    match decoded {
        Some((reported, neighbors)) => update(
            ResponseView::NodeUpdate(
                neighbor_subject(packet, reported, nodes),
                NodeChangeView::Neighbors(neighbors),
                reception_of(packet, now),
            ),
        ),
        None => nothing(Notice::DecodeFailure(Port::NeighborInfo)),
    }
}

/// What an identity packet means, given what its payload decodes to: the node that the id
/// string names takes the identity.
pub open spec fn identity_outcome(decoded: Option<User>) -> InterpretationView {
    match decoded {
        Some(user) => match node_id_of(user.id@) {
            Some(id) => update(ResponseView::UserUpdate(id, user)),
            None => nothing(Notice::BadNodeId),
        },
        None => nothing(Notice::DecodeFailure(Port::NodeInfo)),
    }
}

/// What a routing packet means, given what its payload decodes to: nothing changes; a
/// delivery report is logged with the id of the request it answers.
pub open spec fn routing_outcome(request_id: u32, decoded: Option<RoutingReport>)
    -> InterpretationView {
    match decoded {
        Some(RoutingReport::RouteRequest) => nothing(Notice::Noted),
        Some(RoutingReport::RouteReply) => nothing(Notice::Noted),
        Some(RoutingReport::ErrorReason(code)) => if code == 0 {
            nothing(Notice::Delivered(request_id))
        } else {
            nothing(Notice::RoutingError(request_id, code))
        },
        Some(RoutingReport::Absent) => nothing(Notice::Silent),
        None => nothing(Notice::DecodeFailure(Port::Routing)),
    }
}

/// What a traceroute packet means, given what its payload decodes to: the sender's record
/// takes the hops of the route to the packet's addressee. A sender without a record gets
/// none for it.
pub open spec fn traceroute_outcome(
    packet: MeshPacket,
    decoded: Option<Seq<u32>>,
    nodes: Map<u32, NodeView>,
    now: u64,
) -> InterpretationView {
    match decoded {
        Some(hops) => if nodes.contains_key(packet.from) {
            update(
                ResponseView::NodeUpdate(
                    packet.from,
                    NodeChangeView::Route(packet.to, hops),
                    reception_of(packet, now),
                ),
            )
        } else {
            nothing(Notice::UnknownRouteSource(packet.from))
        },
        None => nothing(Notice::DecodeFailure(Port::Traceroute)),
    }
}

/// What a text packet means, given the text that its payload holds: the log takes the
/// message, with what is known of its sender. A message from a node without a record is
/// dropped.
pub open spec fn text_outcome(
    packet: MeshPacket,
    decoded: Option<Seq<char>>,
    nodes: Map<u32, NodeView>,
) -> InterpretationView {
    match decoded {
        None => nothing(Notice::DecodeFailure(Port::TextMessage)),
        Some(text) => if !nodes.contains_key(packet.from) {
            nothing(Notice::UnknownSender(packet.from))
        } else {
            update(
                ResponseView::InboundMessage(
                    MessageView {
                        timestamp: packet.rx_time,
                        source: Some(nodes[packet.from].node_info),
                        destination: destination_of(packet.to),
                        channel: packet.channel,
                        message: text,
                        rx_rssi: packet.rx_rssi,
                        rx_snr_bits: packet.rx_snr_bits,
                    },
                ),
            )
        },
    }
}

/// The text that bytes hold: the characters they encode in UTF-8, if they encode any.
pub open spec fn text_payload(payload: Seq<u8>) -> Option<Seq<char>> {
    if vstd::utf8::valid_utf8(payload) {
        Some(vstd::utf8::decode_utf8(payload))
    } else {
        None
    }
}

/// What a position packet means.
pub open spec fn position_meaning(packet: MeshPacket, payload: Seq<u8>, now: u64)
    -> InterpretationView {
    position_outcome(packet, position_payload(payload), now)
}

/// What a telemetry packet means.
pub open spec fn telemetry_meaning(packet: MeshPacket, payload: Seq<u8>, now: u64)
    -> InterpretationView {
    telemetry_outcome(packet, telemetry_payload(payload), now)
}

/// What a neighbor-info packet means.
pub open spec fn neighbor_meaning(
    packet: MeshPacket,
    payload: Seq<u8>,
    nodes: Map<u32, NodeView>,
    now: u64,
) -> InterpretationView {
    neighbor_outcome(packet, neighbor_info_payload(payload), nodes, now)
}

/// What an identity packet means.
pub open spec fn identity_meaning(payload: Seq<u8>) -> InterpretationView {
    identity_outcome(user_payload(payload))
}

/// What a routing packet means.
pub open spec fn routing_meaning(data: Data) -> InterpretationView {
    routing_outcome(data.request_id, routing_payload(data.payload@))
}

/// What a traceroute packet means.
pub open spec fn traceroute_meaning(
    packet: MeshPacket,
    payload: Seq<u8>,
    nodes: Map<u32, NodeView>,
    now: u64,
) -> InterpretationView {
    traceroute_outcome(packet, route_discovery_payload(payload), nodes, now)
}

/// What a text packet means.
pub open spec fn text_meaning(packet: MeshPacket, payload: Seq<u8>, nodes: Map<u32, NodeView>)
    -> InterpretationView {
    text_outcome(packet, text_payload(payload), nodes)
}

/// What the application data of a packet means, by the port it was sent to.
pub open spec fn data_meaning(
    packet: MeshPacket,
    data: Data,
    nodes: Map<u32, NodeView>,
    now: u64,
) -> InterpretationView {
    match port_of_number(data.portnum) {
        Port::Position => position_meaning(packet, data.payload@, now),
        Port::Telemetry => telemetry_meaning(packet, data.payload@, now),
        Port::NeighborInfo => neighbor_meaning(packet, data.payload@, nodes, now),
        Port::NodeInfo => identity_meaning(data.payload@),
        Port::Routing => routing_meaning(data),
        Port::Traceroute => traceroute_meaning(packet, data.payload@, nodes, now),
        Port::Reply => nothing(Notice::Noted),
        Port::TextMessage => text_meaning(packet, data.payload@, nodes),
        Port::Other => nothing(Notice::UnknownPort(data.portnum)),
    }
}

/// What a packet heard on the mesh means.
pub open spec fn packet_meaning(packet: MeshPacket, nodes: Map<u32, NodeView>, now: u64)
    -> InterpretationView {
    match packet.payload_variant {
        Some(PacketPayload::Decoded(data)) => data_meaning(packet, data, nodes, now),
        Some(PacketPayload::Encrypted) => nothing(Notice::Noted),
        None => nothing(Notice::Silent),
    }
}

/// What a frame means, given the records of the registry and the time.
pub open spec fn interpretation(frame: RadioFrame, nodes: Map<u32, NodeView>, now: u64)
    -> InterpretationView {
    match frame {
        RadioFrame::Packet(packet) => packet_meaning(packet, nodes, now),
        RadioFrame::MyInfo(address) => update(ResponseView::OurAddress(address)),
        RadioFrame::NodeInfo(info) => update(
            ResponseView::NodeUpdate(
                info.num,
                NodeChangeView::Record(info),
                Reception { seen_at: now, rssi: 0, snr_bits: info.snr_bits },
            ),
        ),
        RadioFrame::Config(Some(block)) => update(ResponseView::ConfigUpdate(block)),
        RadioFrame::Config(None) => nothing(Notice::Noted),
        RadioFrame::ModuleConfig(Some(block)) => update(ResponseView::ModuleConfigUpdate(block)),
        RadioFrame::ModuleConfig(None) => nothing(Notice::Noted),
        RadioFrame::Channel(channel) => if channel.settings is Some {
            update(ResponseView::ChannelUpdate(labelled(channel@)))
        } else {
            nothing(Notice::Silent)
        },
        RadioFrame::LogRecord(record) => nothing(Notice::RadioLog(record.level)),
        RadioFrame::ConfigCompleteId(_) => nothing(Notice::Noted),
        RadioFrame::Rebooted(rebooted) => if rebooted {
            nothing(Notice::Noted)
        } else {
            nothing(Notice::Silent)
        },
        RadioFrame::QueueStatus(_) => nothing(Notice::QueueReport),
        RadioFrame::XmodemPacket => nothing(Notice::Noted),
        RadioFrame::Metadata(_) => nothing(Notice::Noted),
        RadioFrame::MqttClientProxyMessage => nothing(Notice::Noted),
        RadioFrame::Unrecognized => nothing(Notice::UnknownFrame),
        RadioFrame::Empty => nothing(Notice::Silent),
    }
}

/// Tells whom a packet to address `to` is meant for.
pub fn classify_destination(to: u32) -> (destination: PacketDestination)
    ensures
        destination == destination_of(to),
{
    if to == 0 {
        PacketDestination::Local
    } else if to == BROADCAST_ADDRESS {
        PacketDestination::Broadcast
    } else {
        PacketDestination::Node(to)
    }
}

/// Reads the address out of an identity's id string, such as `!a1b2c3d4`.
pub fn parse_node_id(id: &String) -> (address: Option<u32>)
    ensures
        address == node_id_of(id@),
{
    let digits = trim_leading_bangs(id.as_str());
    match parse_hex(digits) {
        Some(n) => if n != 0 {
            Some(n)
        } else {
            None
        },
        None => None,
    }
}

/// Gives a channel with the factory's settings a name to show, and leaves any other
/// channel as it is.
pub fn label_default_channel(channel: Channel) -> (stored: Channel)
    ensures
        stored@ == labelled(channel@),
{
    let Channel { index, settings, role } = channel;
    match settings {
        Some(s) => {
            if s.name.as_str().is_empty() && s.psk.len() == 1 && s.psk[0] == 1 {
                proof {
                    assert(s.psk@ =~= seq![1u8]);
                }
                let named = ChannelSettings { name: DEFAULT_CHANNEL_NAME.to_owned(), ..s };
                Channel { index, settings: Some(named), role }
            } else {
                proof {
                    if s.psk@ == seq![1u8] {
                        assert(seq![1u8].len() == 1);
                        assert(seq![1u8][0] == 1);
                    }
                }
                Channel { index, settings: Some(s), role }
            }
        },
        None => Channel { index, settings: None, role },
    }
}

/// The name a node goes by in the log: the id string of its identity, or `Unknown` where
/// there is no record of the node or no identity in it.
pub open spec fn label_of(nodes: Map<u32, NodeView>, id: u32) -> Seq<char> {
    if nodes.contains_key(id) && nodes[id].node_info.user is Some {
        nodes[id].node_info.user->0.id@
    } else {
        "Unknown"@
    }
}

/// The name a node goes by in the log.
pub fn node_label(nodes: &HashMap<u32, ComprehensiveNode>, id: u32) -> (label: String)
    ensures
        label@ == label_of(nodes_view(nodes@), id),
{
    match nodes.get(&id) {
        Some(node) => match &node.node_info.user {
            Some(user) => user.id.clone(),
            None => "Unknown".to_owned(),
        },
        None => "Unknown".to_owned(),
    }
}

/// The edges of a neighbor table as the log shows them: for each neighbor, in the order
/// of the table, the name of the node that reports and the name of the neighbor.
pub fn neighbor_edges(
    hub: u32,
    neighbors: &Vec<Neighbor>,
    nodes: &HashMap<u32, ComprehensiveNode>,
) -> (edges: Vec<(String, String)>)
    ensures
        edges@.len() == neighbors@.len(),
        forall|i: int|
            0 <= i < edges@.len() ==> (#[trigger] edges@[i]).0@ == label_of(
                nodes_view(nodes@),
                hub,
            ) && edges@[i].1@ == label_of(nodes_view(nodes@), neighbors@[i].node_id),
{
    let mut edges: Vec<(String, String)> = Vec::new();
    let mut i: usize = 0;
    while i < neighbors.len()
        invariant
            i <= neighbors.len(),
            edges@.len() == i,
            forall|t: int|
                0 <= t < i ==> (#[trigger] edges@[t]).0@ == label_of(nodes_view(nodes@), hub)
                    && edges@[t].1@ == label_of(nodes_view(nodes@), neighbors@[t].node_id),
        decreases neighbors.len() - i,
    {
        edges.push((node_label(nodes, hub), node_label(nodes, neighbors[i].node_id)));
        i += 1;
    }
    edges
}

fn quiet(notice: Notice) -> (r: Interpretation)
    ensures
        r@ == nothing(notice),
{
    Interpretation { response: None, notice }
}

fn asks(response: PacketResponse) -> (r: Interpretation)
    ensures
        r@ == update(response@),
{
    Interpretation { response: Some(response), notice: Notice::Noted }
}

fn reception(packet: &MeshPacket, now: u64) -> (rx: Reception)
    ensures
        rx == reception_of(*packet, now),
{
    Reception { seen_at: now, rssi: packet.rx_rssi, snr_bits: packet.rx_snr_bits }
}

/// The content of a decoded neighbor table.
pub open spec fn table_view(decoded: Option<NeighborInfo>) -> Option<(u32, Seq<Neighbor>)> {
    match decoded {
        Some(info) => Some((info.node_id, info.neighbors@)),
        None => None,
    }
}

/// The content of a decoded hop list.
pub open spec fn hops_view(decoded: Option<Vec<u32>>) -> Option<Seq<u32>> {
    match decoded {
        Some(hops) => Some(hops@),
        None => None,
    }
}

/// The content of a decoded text.
pub open spec fn text_view(decoded: Option<String>) -> Option<Seq<char>> {
    match decoded {
        Some(text) => Some(text@),
        None => None,
    }
}

/// Says what a position packet means, given what its payload decoded to.
pub fn position_response(packet: &MeshPacket, decoded: Option<Position>, now: u64) -> (r:
    Interpretation)
    ensures
        r@ == position_outcome(*packet, decoded, now),
{
    match decoded {
        Some(fix) => asks(
            PacketResponse::NodeUpdate(
                packet.from,
                NodeChange::Position(fix),
                reception(packet, now),
            ),
        ),
        None => quiet(Notice::DecodeFailure(Port::Position)),
    }
}

/// Says what a telemetry packet means, given what its payload decoded to.
pub fn telemetry_response(packet: &MeshPacket, decoded: Option<TelemetryReading>, now: u64) -> (r:
    Interpretation)
    ensures
        r@ == telemetry_outcome(*packet, decoded, now),
{
    match decoded {
        Some(TelemetryReading::Device(metrics)) => asks(
            PacketResponse::NodeUpdate(
                packet.from,
                NodeChange::DeviceMetrics(metrics),
                reception(packet, now),
            ),
        ),
        Some(TelemetryReading::Environment(metrics)) => asks(
            PacketResponse::NodeUpdate(
                packet.from,
                NodeChange::EnvironmentMetrics(metrics),
                reception(packet, now),
            ),
        ),
        Some(_) => quiet(Notice::Silent),
        None => quiet(Notice::DecodeFailure(Port::Telemetry)),
    }
}

/// Says what a neighbor-info packet means, given what its payload decoded to.
pub fn neighbor_response(
    packet: &MeshPacket,
    decoded: Option<NeighborInfo>,
    nodes: &HashMap<u32, ComprehensiveNode>,
    now: u64,
) -> (r: Interpretation)
    ensures
        r@ == neighbor_outcome(*packet, table_view(decoded), nodes_view(nodes@), now),
{
    match decoded {
        Some(info) => {
            let subject = if nodes.contains_key(&info.node_id) {
                info.node_id
            } else {
                packet.from
            };
            asks(
                PacketResponse::NodeUpdate(
                    subject,
                    NodeChange::Neighbors(info.neighbors),
                    reception(packet, now),
                ),
            )
        },
        None => quiet(Notice::DecodeFailure(Port::NeighborInfo)),
    }
}

/// Says what an identity packet means, given what its payload decoded to.
pub fn identity_response(decoded: Option<User>) -> (r: Interpretation)
    ensures
        r@ == identity_outcome(decoded),
{
    match decoded {
        Some(user) => match parse_node_id(&user.id) {
            Some(id) => asks(PacketResponse::UserUpdate(id, user)),
            None => quiet(Notice::BadNodeId),
        },
        None => quiet(Notice::DecodeFailure(Port::NodeInfo)),
    }
}

/// Says what a routing packet means, given what its payload decoded to and the id of the
/// request that the packet answers.
pub fn routing_response(request_id: u32, decoded: Option<RoutingReport>) -> (r: Interpretation)
    ensures
        r@ == routing_outcome(request_id, decoded),
{
    match decoded {
        Some(RoutingReport::RouteRequest) => quiet(Notice::Noted),
        Some(RoutingReport::RouteReply) => quiet(Notice::Noted),
        Some(RoutingReport::ErrorReason(code)) => if code == 0 {
            quiet(Notice::Delivered(request_id))
        } else {
            quiet(Notice::RoutingError(request_id, code))
        },
        Some(RoutingReport::Absent) => quiet(Notice::Silent),
        None => quiet(Notice::DecodeFailure(Port::Routing)),
    }
}

/// Says what a traceroute packet means, given what its payload decoded to.
pub fn traceroute_response(
    packet: &MeshPacket,
    decoded: Option<Vec<u32>>,
    nodes: &HashMap<u32, ComprehensiveNode>,
    now: u64,
) -> (r: Interpretation)
    ensures
        r@ == traceroute_outcome(*packet, hops_view(decoded), nodes_view(nodes@), now),
{
    match decoded {
        Some(hops) => if nodes.contains_key(&packet.from) {
            asks(
                PacketResponse::NodeUpdate(
                    packet.from,
                    NodeChange::Route(packet.to, hops),
                    reception(packet, now),
                ),
            )
        } else {
            quiet(Notice::UnknownRouteSource(packet.from))
        },
        None => quiet(Notice::DecodeFailure(Port::Traceroute)),
    }
}

/// Says what a text packet means, given the text that its payload holds.
pub fn text_response(
    packet: &MeshPacket,
    decoded: Option<String>,
    nodes: &HashMap<u32, ComprehensiveNode>,
) -> (r: Interpretation)
    ensures
        r@ == text_outcome(*packet, text_view(decoded), nodes_view(nodes@)),
{
    match decoded {
        Some(message) => match nodes.get(&packet.from) {
            Some(sender) => asks(
                PacketResponse::InboundMessage(
                    MessageEnvelope {
                        timestamp: packet.rx_time,
                        source: Some(sender.node_info.duplicate()),
                        destination: classify_destination(packet.to),
                        channel: packet.channel,
                        message,
                        rx_rssi: packet.rx_rssi,
                        rx_snr_bits: packet.rx_snr_bits,
                    },
                ),
            ),
            None => quiet(Notice::UnknownSender(packet.from)),
        },
        None => quiet(Notice::DecodeFailure(Port::TextMessage)),
    }
}

fn interpret_text(
    packet: &MeshPacket,
    payload: &Vec<u8>,
    nodes: &HashMap<u32, ComprehensiveNode>,
) -> (r: Interpretation)
    ensures
        r@ == text_meaning(*packet, payload@, nodes_view(nodes@)),
{
    let bytes = payload.clone();
    proof {
        assert(bytes@ =~= payload@);
    }
    text_response(packet, decode_text(bytes), nodes)
}

fn interpret_data(
    packet: &MeshPacket,
    data: &Data,
    nodes: &HashMap<u32, ComprehensiveNode>,
    now: u64,
) -> (r: Interpretation)
    ensures
        r@ == data_meaning(*packet, *data, nodes_view(nodes@), now),
{
    match classify_port(data.portnum) {
        Port::Position => position_response(packet, decode_position(&data.payload), now),
        Port::Telemetry => telemetry_response(packet, decode_telemetry(&data.payload), now),
        Port::NeighborInfo => neighbor_response(
            packet,
            decode_neighbor_info(&data.payload),
            nodes,
            now,
        ),
        Port::NodeInfo => identity_response(decode_user(&data.payload)),
        Port::Routing => routing_response(data.request_id, decode_routing(&data.payload)),
        Port::Traceroute => traceroute_response(
            packet,
            decode_route_discovery(&data.payload),
            nodes,
            now,
        ),
        Port::Reply => quiet(Notice::Noted),
        Port::TextMessage => interpret_text(packet, &data.payload, nodes),
        Port::Other => quiet(Notice::UnknownPort(data.portnum)),
    }
}

/// Interprets one frame that arrived at `now`, given the records of the registry.
/// Nothing is changed: the update that the frame asks for is handed back.
pub fn interpret(frame: RadioFrame, nodes: &HashMap<u32, ComprehensiveNode>, now: u64) -> (r:
    Interpretation)
    ensures
        r@ == interpretation(frame, nodes_view(nodes@), now),
{
    match frame {
        RadioFrame::Packet(packet) => match &packet.payload_variant {
            Some(PacketPayload::Decoded(data)) => interpret_data(&packet, data, nodes, now),
            Some(PacketPayload::Encrypted) => quiet(Notice::Noted),
            None => quiet(Notice::Silent),
        },
        RadioFrame::MyInfo(address) => asks(PacketResponse::OurAddress(address)),
        RadioFrame::NodeInfo(info) => {
            let rx = Reception { seen_at: now, rssi: 0, snr_bits: info.snr_bits };
            asks(PacketResponse::NodeUpdate(info.num, NodeChange::Record(info), rx))
        },
        RadioFrame::Config(Some(block)) => asks(PacketResponse::ConfigUpdate(block)),
        RadioFrame::Config(None) => quiet(Notice::Noted),
        RadioFrame::ModuleConfig(Some(block)) => asks(PacketResponse::ModuleConfigUpdate(block)),
        RadioFrame::ModuleConfig(None) => quiet(Notice::Noted),
        RadioFrame::Channel(channel) => if channel.settings.is_some() {
            asks(PacketResponse::ChannelUpdate(label_default_channel(channel)))
        } else {
            quiet(Notice::Silent)
        },
        RadioFrame::LogRecord(record) => quiet(Notice::RadioLog(record.level)),
        RadioFrame::ConfigCompleteId(_) => quiet(Notice::Noted),
        RadioFrame::Rebooted(rebooted) => if rebooted {
            quiet(Notice::Noted)
        } else {
            quiet(Notice::Silent)
        },
        RadioFrame::QueueStatus(_) => quiet(Notice::QueueReport),
        RadioFrame::XmodemPacket => quiet(Notice::Noted),
        RadioFrame::Metadata(_) => quiet(Notice::Noted),
        RadioFrame::MqttClientProxyMessage => quiet(Notice::Noted),
        RadioFrame::Unrecognized => quiet(Notice::UnknownFrame),
        RadioFrame::Empty => quiet(Notice::Silent),
    }
}

/// Interprets a message from the session task at the time the system clock shows. Only a
/// frame from the radio can ask for an update.
pub fn process_packet(packet: IPCMessage, node_list: &HashMap<u32, ComprehensiveNode>) -> (r:
    Option<PacketResponse>)
    ensures
        match packet {
            IPCMessage::FromRadio(frame) => exists|now: u64|
                response_view(r) == interpretation(frame, nodes_view(node_list@), now).response,
            _ => r is None,
        },
{
    match packet {
        IPCMessage::FromRadio(frame) => {
            let now = get_secs();
            let meaning = interpret(frame, node_list, now);
            meaning.response
        },
        _ => None,
    }
}

} // verus!
