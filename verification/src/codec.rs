//! The calls into the radio protocol library and into `std` that the interpreter relies on.
//!
//! The contracts of the functions marked `external_body` are not proved. Each states what
//! the callee's source or documentation says of it; where that would take pages, the result
//! only gets a name.

use vstd::prelude::*;
use meshtastic::protobufs;
use meshtastic::protobufs::log_record::Level;
use meshtastic::protobufs::telemetry::Variant;
use meshtastic::protobufs::PortNum;
use meshtastic::Message;
use crate::frame::{
    DeviceMetrics, EnvironmentMetrics, LogLevel, Neighbor, NeighborInfo, Port, Position,
    RoutingReport, Severity, TelemetryReading, User,
};

verus! {

/// The fix that a position payload decodes to, if it decodes.
pub uninterp spec fn position_payload(bytes: Seq<u8>) -> Option<Position>;

/// The reading that a telemetry payload decodes to, if it decodes.
pub uninterp spec fn telemetry_payload(bytes: Seq<u8>) -> Option<TelemetryReading>;

/// The reporting node and its neighbor table that a neighbor-info payload decodes to.
pub uninterp spec fn neighbor_info_payload(bytes: Seq<u8>) -> Option<(u32, Seq<Neighbor>)>;

/// The identity that a node-info payload decodes to, if it decodes.
pub uninterp spec fn user_payload(bytes: Seq<u8>) -> Option<User>;

/// The report that a routing payload decodes to, if it decodes.
pub uninterp spec fn routing_payload(bytes: Seq<u8>) -> Option<RoutingReport>;

/// The hop list that a route-discovery payload decodes to, if it decodes.
pub uninterp spec fn route_discovery_payload(bytes: Seq<u8>) -> Option<Seq<u32>>;

/// The value of a hexadecimal digit, in either case.
pub open spec fn hex_digit(c: char) -> Option<nat> {
    if '0' <= c <= '9' {
        Some((c as nat - '0' as nat) as nat)
    } else if 'a' <= c <= 'f' {
        Some((c as nat - 'a' as nat + 10) as nat)
    } else if 'A' <= c <= 'F' {
        Some((c as nat - 'A' as nat + 10) as nat)
    } else {
        None
    }
}

/// The number that hexadecimal digits stand for, the most significant first; `None` where
/// one of them is no digit.
pub open spec fn hex_number(digits: Seq<char>) -> Option<nat>
    decreases digits.len(),
{
    if digits.len() == 0 {
        Some(0)
    } else {
        match (hex_number(digits.drop_last()), hex_digit(digits.last())) {
            (Some(high), Some(low)) => Some(high * 16 + low),
            _ => None,
        }
    }
}

/// The number that a string stands for in hexadecimal: after an optional plus sign, one
/// digit or more and nothing else, with a value that fits 32 bits.
pub open spec fn hex_value(text: Seq<char>) -> Option<u32> {
    let digits = if text.len() > 0 && text[0] == '+' {
        text.drop_first()
    } else {
        text
    };
    if digits.len() == 0 {
        None
    } else {
        match hex_number(digits) {
            Some(value) => if value <= u32::MAX {
                Some(value as u32)
            } else {
                None
            },
            None => None,
        }
    }
}

/// The port that a port number stands for.
pub open spec fn port_of_number(portnum: i32) -> Port {
    if portnum == 1 {
        Port::TextMessage
    } else if portnum == 3 {
        Port::Position
    } else if portnum == 4 {
        Port::NodeInfo
    } else if portnum == 5 {
        Port::Routing
    } else if portnum == 32 {
        Port::Reply
    } else if portnum == 67 {
        Port::Telemetry
    } else if portnum == 70 {
        Port::Traceroute
    } else if portnum == 71 {
        Port::NeighborInfo
    } else {
        Port::Other
    }
}

/// The level that a level number stands for, if the protocol defines the number.
pub open spec fn level_of_number(level: i32) -> Option<LogLevel> {
    if level == 0 {
        Some(LogLevel::Unset)
    } else if level == 50 {
        Some(LogLevel::Critical)
    } else if level == 40 {
        Some(LogLevel::Error)
    } else if level == 30 {
        Some(LogLevel::Warning)
    } else if level == 20 {
        Some(LogLevel::Info)
    } else if level == 10 {
        Some(LogLevel::Debug)
    } else if level == 5 {
        Some(LogLevel::Trace)
    } else {
        None
    }
}

/// The severity at which a line of the radio's log is passed on, by its level: critical
/// lines count as errors, and lines without a level as informational.
pub open spec fn severity_of(level: LogLevel) -> Severity {
    match level {
        LogLevel::Critical => Severity::Error,
        LogLevel::Error => Severity::Error,
        LogLevel::Warning => Severity::Warn,
        LogLevel::Info => Severity::Info,
        LogLevel::Debug => Severity::Debug,
        LogLevel::Trace => Severity::Trace,
        LogLevel::Unset => Severity::Info,
    }
}

/// The severity at which a line of the radio's log is passed on, by its level number. A
/// number that the protocol does not define counts as no level.
pub open spec fn severity_of_level(level: i32) -> Severity {
    match level_of_number(level) {
        Some(known) => severity_of(known),
        None => severity_of(LogLevel::Unset),
    }
}

/// `s` without the exclamation marks it starts with.
pub open spec fn without_leading_bangs(s: Seq<char>) -> Seq<char>
    decreases s.len(),
{
    if s.len() > 0 && s[0] == '!' {
        without_leading_bangs(s.drop_first())
    } else {
        s
    }
}

/// Calls `PortNum::try_from`. The generated enum gives the text-message port the number 1,
/// position 3, node-info 4, routing 5, reply 32, telemetry 67, traceroute 70 and
/// neighbor-info 71; every other number, defined or not, is reported as `Port::Other`.
#[verifier::external_body]
pub(crate) fn classify_port(portnum: i32) -> (port: Port)
    ensures
        port == port_of_number(portnum),
{
    match PortNum::try_from(portnum) {
        Ok(PortNum::TextMessageApp) => Port::TextMessage,
        Ok(PortNum::PositionApp) => Port::Position,
        Ok(PortNum::NodeinfoApp) => Port::NodeInfo,
        Ok(PortNum::RoutingApp) => Port::Routing,
        Ok(PortNum::ReplyApp) => Port::Reply,
        Ok(PortNum::TelemetryApp) => Port::Telemetry,
        Ok(PortNum::TracerouteApp) => Port::Traceroute,
        Ok(PortNum::NeighborinfoApp) => Port::NeighborInfo,
        _ => Port::Other,
    }
}

/// Calls `log_record::Level::try_from`. The generated enum numbers unset 0, critical 50,
/// error 40, warning 30, info 20, debug 10 and trace 5; any other number is no level.
#[verifier::external_body]
pub(crate) fn read_level(level: i32) -> (known: Option<LogLevel>)
    ensures
        known == level_of_number(level),
{
    match Level::try_from(level) {
        Ok(Level::Unset) => Some(LogLevel::Unset),
        Ok(Level::Critical) => Some(LogLevel::Critical),
        Ok(Level::Error) => Some(LogLevel::Error),
        Ok(Level::Warning) => Some(LogLevel::Warning),
        Ok(Level::Info) => Some(LogLevel::Info),
        Ok(Level::Debug) => Some(LogLevel::Debug),
        Ok(Level::Trace) => Some(LogLevel::Trace),
        Err(_) => None,
    }
}

/// Says at which severity a line of the radio's log is passed on, given its level.
pub fn severity_for(level: LogLevel) -> (severity: Severity)
    ensures
        severity == severity_of(level),
{
    match level {
        LogLevel::Critical => Severity::Error,
        LogLevel::Error => Severity::Error,
        LogLevel::Warning => Severity::Warn,
        LogLevel::Info => Severity::Info,
        LogLevel::Debug => Severity::Debug,
        LogLevel::Trace => Severity::Trace,
        LogLevel::Unset => Severity::Info,
    }
}

/// Says at which severity a line of the radio's log is passed on, given its level number.
pub fn classify_level(level: i32) -> (severity: Severity)
    ensures
        severity == severity_of_level(level),
{
    match read_level(level) {
        Some(known) => severity_for(known),
        None => severity_for(LogLevel::Unset),
    }
}

/// Calls `Position::decode` of the protocol library and keeps the three coordinates.
/// `None` stands for a payload that does not decode.
#[verifier::external_body]
pub(crate) fn decode_position(payload: &Vec<u8>) -> (r: Option<Position>)
    ensures
        r == position_payload(payload@),
{
    let p = protobufs::Position::decode(payload.as_slice()).ok()?;
    Some(Position { latitude_i: p.latitude_i, longitude_i: p.longitude_i, altitude: p.altitude })
}

/// Calls `Telemetry::decode` of the protocol library and keeps the reading it carries.
/// `None` stands for a payload that does not decode.
#[verifier::external_body]
pub(crate) fn decode_telemetry(payload: &Vec<u8>) -> (r: Option<TelemetryReading>)
    ensures
        r == telemetry_payload(payload@),
{
    Some(match protobufs::Telemetry::decode(payload.as_slice()).ok()?.variant {
        Some(Variant::DeviceMetrics(d)) => TelemetryReading::Device(DeviceMetrics {
            battery_level: d.battery_level,
            voltage_bits: d.voltage.map(|v| v.to_bits()),
            channel_utilization_bits: d.channel_utilization.map(|v| v.to_bits()),
            air_util_tx_bits: d.air_util_tx.map(|v| v.to_bits()),
        }),
        Some(Variant::EnvironmentMetrics(e)) => TelemetryReading::Environment(EnvironmentMetrics {
            temperature_bits: e.temperature.map(|v| v.to_bits()),
            relative_humidity_bits: e.relative_humidity.map(|v| v.to_bits()),
            barometric_pressure_bits: e.barometric_pressure.map(|v| v.to_bits()),
        }),
        Some(_) => TelemetryReading::Other,
        None => TelemetryReading::Absent,
    })
}

/// Calls `NeighborInfo::decode` of the protocol library and keeps the reporting node and,
/// of each neighbor, its address, signal-to-noise ratio and time last heard.
#[verifier::external_body]
pub(crate) fn decode_neighbor_info(payload: &Vec<u8>) -> (r: Option<NeighborInfo>)
    ensures
        match r {
            Some(info) => neighbor_info_payload(payload@) == Some((info.node_id, info.neighbors@)),
            None => neighbor_info_payload(payload@) is None,
        },
{
    let n = protobufs::NeighborInfo::decode(payload.as_slice()).ok()?;
    let neighbors = n.neighbors.iter().map(|e| Neighbor {
        node_id: e.node_id,
        snr_bits: e.snr.to_bits(),
        last_rx_time: e.last_rx_time,
    }).collect();
    Some(NeighborInfo { node_id: n.node_id, neighbors })
}

/// Calls `User::decode` of the protocol library and keeps the names, the hardware model,
/// the licence flag and the role.
#[verifier::external_body]
pub(crate) fn decode_user(payload: &Vec<u8>) -> (r: Option<User>)
    ensures
        r == user_payload(payload@),
{
    let u = protobufs::User::decode(payload.as_slice()).ok()?;
    Some(User {
        id: u.id,
        long_name: u.long_name,
        short_name: u.short_name,
        hw_model: u.hw_model,
        is_licensed: u.is_licensed,
        role: u.role,
    })
}

/// Calls `Routing::decode` of the protocol library and tells its variants apart.
#[verifier::external_body]
pub(crate) fn decode_routing(payload: &Vec<u8>) -> (r: Option<RoutingReport>)
    ensures
        r == routing_payload(payload@),
{
    let m = protobufs::Routing::decode(payload.as_slice()).ok()?;
    Some(match m.variant {
        Some(protobufs::routing::Variant::RouteRequest(_)) => RoutingReport::RouteRequest,
        Some(protobufs::routing::Variant::RouteReply(_)) => RoutingReport::RouteReply,
        Some(protobufs::routing::Variant::ErrorReason(code)) => RoutingReport::ErrorReason(code),
        None => RoutingReport::Absent,
    })
}

/// Calls `RouteDiscovery::decode` of the protocol library and keeps the forward hop list.
#[verifier::external_body]
pub(crate) fn decode_route_discovery(payload: &Vec<u8>) -> (r: Option<Vec<u32>>)
    ensures
        match r {
            Some(route) => route_discovery_payload(payload@) == Some(route@),
            None => route_discovery_payload(payload@) is None,
        },
{
    let d = protobufs::RouteDiscovery::decode(payload.as_slice()).ok()?;
    Some(d.route)
}

/// Calls `String::from_utf8`, which succeeds exactly on well-formed UTF-8 and then yields
/// the text that the bytes encode.
#[verifier::external_body]
pub(crate) fn decode_text(payload: Vec<u8>) -> (r: Option<String>)
    ensures
        r is Some <==> vstd::utf8::valid_utf8(payload@),
        r is Some ==> r->0@ == vstd::utf8::decode_utf8(payload@),
{
    String::from_utf8(payload).ok()
}

/// Calls `str::trim_start_matches` with `'!'`, which drops every exclamation mark that the
/// string starts with.
#[verifier::external_body]
pub(crate) fn trim_leading_bangs(s: &str) -> (r: &str)
    ensures
        r@ == without_leading_bangs(s@),
{
    s.trim_start_matches('!')
}

/// Calls `u32::from_str_radix` with radix 16, which accepts an optional plus sign followed
/// by digits only, at least one, and fails where the value does not fit. `None` stands for
/// a failure.
#[verifier::external_body]
pub(crate) fn parse_hex(digits: &str) -> (r: Option<u32>)
    ensures
        r == hex_value(digits@),
{
    u32::from_str_radix(digits, 16).ok()
}

/// Calls `String::push`, which appends the character to the end of the string.
#[verifier::external_body]
pub(crate) fn push_char(text: &mut String, c: char)
    ensures
        final(text)@ == old(text)@.push(c),
{
    text.push(c)
}

/// The string that holds the given characters in their order.
pub fn text_of(chars: &Vec<char>) -> (text: String)
    ensures
        text@ == chars@,
{
    let mut text = String::new();
    let mut i: usize = 0;
    while i < chars.len()
        invariant
            i <= chars.len(),
            text@ == chars@.take(i as int),
        decreases chars.len() - i,
    {
        push_char(&mut text, chars[i]);
        proof {
            assert(chars@.take(i + 1) =~= chars@.take(i as int).push(chars@[i as int]));
        }
        i += 1;
    }
    proof {
        assert(chars@.take(i as int) =~= chars@);
    }
    text
}

/// Calls `SystemTime::elapsed` on the Unix epoch: the seconds since then by the system
/// clock, or `None` where the clock stands before the epoch.
#[verifier::external_body]
pub(crate) fn epoch_seconds() -> (r: Option<u64>)
{
    match std::time::UNIX_EPOCH.elapsed() {
        Ok(elapsed) => Some(elapsed.as_secs()),
        Err(_) => None,
    }
}

} // verus!
