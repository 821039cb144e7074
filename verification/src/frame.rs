//! Plain-value model of the frames the radio delivers.
//!
//! Every type here holds integers, booleans, strings and byte vectors only, so that the
//! interpreter can be reasoned about field by field. A floating-point reading is kept as its
//! IEEE-754 bit pattern in a field whose name ends in `_bits`.

use vstd::prelude::*;

verus! {

/// Recipient address that stands for every node of the mesh.
pub const BROADCAST_ADDRESS: u32 = 0xffff_ffff;

/// A geographic fix. Latitude and longitude are fixed-point degrees scaled by 1e7.
#[derive(Clone, Copy, Debug, PartialEq, Eq)]
pub struct Position {
    pub latitude_i: Option<i32>,
    pub longitude_i: Option<i32>,
    pub altitude: Option<i32>,
}

/// Power and airtime figures a node reports about itself.
#[derive(Clone, Copy, Debug, PartialEq, Eq)]
pub struct DeviceMetrics {
    pub battery_level: Option<u32>,
    pub voltage_bits: Option<u32>,
    pub channel_utilization_bits: Option<u32>,
    pub air_util_tx_bits: Option<u32>,
}

/// Weather readings a node reports.
#[derive(Clone, Copy, Debug, PartialEq, Eq)]
pub struct EnvironmentMetrics {
    pub temperature_bits: Option<u32>,
    pub relative_humidity_bits: Option<u32>,
    pub barometric_pressure_bits: Option<u32>,
}

/// One edge of a node's neighbor table.
#[derive(Clone, Copy, Debug, PartialEq, Eq)]
pub struct Neighbor {
    pub node_id: u32,
    pub snr_bits: u32,
    pub last_rx_time: u32,
}

/// The identity a node announces for itself.
#[derive(Clone, Debug, PartialEq, Eq)]
pub struct User {
    pub id: String,
    pub long_name: String,
    pub short_name: String,
    pub hw_model: i32,
    pub is_licensed: bool,
    pub role: i32,
}

/// Everything the radio knows about one node.
#[derive(Clone, Debug, PartialEq, Eq)]
pub struct NodeInfo {
    pub num: u32,
    pub user: Option<User>,
    pub position: Option<Position>,
    pub snr_bits: u32,
    pub last_heard: u32,
    pub device_metrics: Option<DeviceMetrics>,
    pub channel: u32,
    pub via_mqtt: bool,
    pub hops_away: Option<u32>,
}

/// The application payload of a mesh packet: a port number and the bytes sent to that port.
#[derive(Clone, Debug, PartialEq, Eq)]
pub struct Data {
    pub portnum: i32,
    pub payload: Vec<u8>,
    pub want_response: bool,
    pub dest: u32,
    pub source: u32,
    pub request_id: u32,
}

/// What a mesh packet carries.
#[derive(Clone, Debug, PartialEq, Eq)]
pub enum PacketPayload {
    Decoded(Data),
    Encrypted,
}

/// The envelope of a packet heard on the mesh.
#[derive(Clone, Debug, PartialEq, Eq)]
pub struct MeshPacket {
    pub from: u32,
    pub to: u32,
    pub channel: u32,
    pub id: u32,
    pub rx_time: u32,
    pub rx_snr_bits: u32,
    pub rx_rssi: i32,
    pub payload_variant: Option<PacketPayload>,
}

/// A line of the radio's own log.
#[derive(Clone, Debug, PartialEq, Eq)]
pub struct LogRecord {
    pub message: String,
    pub level: i32,
}

/// Fill level of the radio's transmit queue.
#[derive(Clone, Copy, Debug, PartialEq, Eq)]
pub struct QueueStatus {
    pub res: i32,
    pub free: u32,
    pub maxlen: u32,
    pub mesh_packet_id: u32,
}

/// Settings of one channel.
#[derive(Clone, Debug, PartialEq, Eq)]
pub struct ChannelSettings {
    pub psk: Vec<u8>,
    pub name: String,
    pub id: u32,
    pub uplink_enabled: bool,
    pub downlink_enabled: bool,
}

/// One slot of the radio's channel table.
#[derive(Clone, Debug, PartialEq, Eq)]
pub struct Channel {
    pub index: i32,
    pub settings: Option<ChannelSettings>,
    pub role: i32,
}

/// A node's report of the stations it hears directly.
#[derive(Clone, Debug, PartialEq, Eq)]
pub struct NeighborInfo {
    pub node_id: u32,
    pub neighbors: Vec<Neighbor>,
}

/// What a telemetry payload holds.
#[derive(Clone, Copy, Debug, PartialEq, Eq)]
pub enum TelemetryReading {
    Device(DeviceMetrics),
    Environment(EnvironmentMetrics),
    /// A kind of reading that the dashboard does not show.
    Other,
    /// A telemetry message without a reading.
    Absent,
}

/// What a routing payload holds.
#[derive(Clone, Copy, Debug, PartialEq, Eq)]
pub enum RoutingReport {
    RouteRequest,
    RouteReply,
    /// The delivery status of an earlier packet: 0 acknowledges it, any other value is the
    /// radio's error code.
    ErrorReason(i32),
    Absent,
}

/// The ports whose payloads the interpreter understands.
#[derive(Clone, Copy, Debug, PartialEq, Eq)]
pub enum Port {
    TextMessage,
    Position,
    NodeInfo,
    Routing,
    Reply,
    Telemetry,
    Traceroute,
    NeighborInfo,
    Other,
}

/// The levels at which the radio logs.
#[derive(Clone, Copy, Debug, PartialEq, Eq)]
pub enum LogLevel {
    Unset,
    Critical,
    Error,
    Warning,
    Info,
    Debug,
    Trace,
}

/// Severity of a log line.
#[derive(Clone, Copy, Debug, PartialEq, Eq)]
pub enum Severity {
    Error,
    Warn,
    Info,
    Debug,
    Trace,
}

/// Whom a text message was addressed to.
#[derive(Clone, Copy, Debug, PartialEq, Eq)]
pub enum PacketDestination {
    Local,
    Broadcast,
    Node(u32),
}

/// The mathematical content of a `ChannelSettings`.
pub struct ChannelSettingsView {
    pub psk: Seq<u8>,
    pub name: Seq<char>,
    pub id: u32,
    pub uplink_enabled: bool,
    pub downlink_enabled: bool,
}

/// The mathematical content of a `Channel`.
pub struct ChannelView {
    pub index: i32,
    pub settings: Option<ChannelSettingsView>,
    pub role: i32,
}

impl View for ChannelSettings {
    type V = ChannelSettingsView;

    open spec fn view(&self) -> ChannelSettingsView {
        ChannelSettingsView {
            psk: self.psk@,
            name: self.name@,
            id: self.id,
            uplink_enabled: self.uplink_enabled,
            downlink_enabled: self.downlink_enabled,
        }
    }
}

impl View for Channel {
    type V = ChannelView;

    open spec fn view(&self) -> ChannelView {
        ChannelView {
            index: self.index,
            settings: match self.settings {
                Some(s) => Some(s@),
                None => None,
            },
            role: self.role,
        }
    }
}

impl ChannelSettings {
    /// A copy of these settings.
    pub fn duplicate(&self) -> (r: ChannelSettings)
        ensures
            r@ == self@,
    {
        let psk = self.psk.clone();
        proof {
            assert(psk@ =~= self.psk@);
        }
        ChannelSettings {
            psk,
            name: self.name.clone(),
            id: self.id,
            uplink_enabled: self.uplink_enabled,
            downlink_enabled: self.downlink_enabled,
        }
    }
}

impl Channel {
    /// A copy of this channel.
    pub fn duplicate(&self) -> (r: Channel)
        ensures
            r@ == self@,
    {
        let settings = match &self.settings {
            Some(s) => Some(s.duplicate()),
            None => None,
        };
        Channel { index: self.index, settings, role: self.role }
    }
}

impl DeviceMetrics {
    /// The reading in which nothing was measured.
    pub open spec fn spec_empty() -> DeviceMetrics {
        DeviceMetrics {
            battery_level: None,
            voltage_bits: None,
            channel_utilization_bits: None,
            air_util_tx_bits: None,
        }
    }

    #[verifier::when_used_as_spec(spec_empty)]
    pub fn empty() -> (r: DeviceMetrics)
        ensures
            r == DeviceMetrics::spec_empty(),
    {
        DeviceMetrics {
            battery_level: None,
            voltage_bits: None,
            channel_utilization_bits: None,
            air_util_tx_bits: None,
        }
    }
}

impl EnvironmentMetrics {
    /// The reading in which nothing was measured.
    pub open spec fn spec_empty() -> EnvironmentMetrics {
        EnvironmentMetrics {
            temperature_bits: None,
            relative_humidity_bits: None,
            barometric_pressure_bits: None,
        }
    }

    #[verifier::when_used_as_spec(spec_empty)]
    pub fn empty() -> (r: EnvironmentMetrics)
        ensures
            r == EnvironmentMetrics::spec_empty(),
    {
        EnvironmentMetrics {
            temperature_bits: None,
            relative_humidity_bits: None,
            barometric_pressure_bits: None,
        }
    }
}

impl User {
    /// A copy of this identity, field for field.
    pub fn duplicate(&self) -> (r: User)
        ensures
            r == *self,
    {
        User {
            id: self.id.clone(),
            long_name: self.long_name.clone(),
            short_name: self.short_name.clone(),
            hw_model: self.hw_model,
            is_licensed: self.is_licensed,
            role: self.role,
        }
    }
}

impl NodeInfo {
    /// The record of a node of which only the address is known.
    pub open spec fn spec_with_num(num: u32) -> NodeInfo {
        NodeInfo {
            num,
            user: None,
            position: None,
            snr_bits: 0,
            last_heard: 0,
            device_metrics: None,
            channel: 0,
            via_mqtt: false,
            hops_away: None,
        }
    }

    #[verifier::when_used_as_spec(spec_with_num)]
    pub fn with_num(num: u32) -> (r: NodeInfo)
        ensures
            r == NodeInfo::spec_with_num(num),
    {
        NodeInfo {
            num,
            user: None,
            position: None,
            snr_bits: 0,
            last_heard: 0,
            device_metrics: None,
            channel: 0,
            via_mqtt: false,
            hops_away: None,
        }
    }

    /// A copy of this record, field for field.
    pub fn duplicate(&self) -> (r: NodeInfo)
        ensures
            r == *self,
    {
        let user = match &self.user {
            Some(u) => Some(u.duplicate()),
            None => None,
        };
        NodeInfo {
            num: self.num,
            user,
            position: self.position,
            snr_bits: self.snr_bits,
            last_heard: self.last_heard,
            device_metrics: self.device_metrics,
            channel: self.channel,
            via_mqtt: self.via_mqtt,
            hops_away: self.hops_away,
        }
    }
}

} // verus!
