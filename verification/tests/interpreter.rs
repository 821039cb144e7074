use meshtastic::protobufs;
use meshtastic::Message;
use meshtui::app::App;
use meshtui::frame::{
    Channel, ChannelSettings, Data, DeviceMetrics, LogRecord, MeshPacket, Neighbor, NodeInfo,
    PacketDestination, PacketPayload, Port, Position, QueueStatus, Severity, User,
};
use meshtui::ipc::{IPCMessage, RadioFrame};
use meshtui::node::{NodeChange, Reception};
use meshtui::codec::{classify_level, severity_for};
use meshtui::frame::{EnvironmentMetrics, LogLevel, NeighborInfo, RoutingReport, TelemetryReading};
use meshtui::packet_handler::{
    classify_destination, identity_response, interpret, label_default_channel,
    neighbor_response, parse_node_id, position_response, process_packet, routing_response,
    telemetry_response, text_response, traceroute_response, Interpretation, Notice,
    PacketResponse,
};
use std::collections::HashMap;

fn packet(from: u32, to: u32, portnum: i32, payload: Vec<u8>) -> MeshPacket {
    MeshPacket {
        from,
        to,
        channel: 2,
        id: 77,
        rx_time: 555,
        rx_snr_bits: 6.5f32.to_bits(),
        rx_rssi: -90,
        payload_variant: Some(PacketPayload::Decoded(Data {
            portnum,
            payload,
            want_response: false,
            dest: 0,
            source: 0,
            request_id: 42,
        })),
    }
}

fn frame(from: u32, to: u32, portnum: i32, payload: Vec<u8>) -> IPCMessage {
    IPCMessage::FromRadio(RadioFrame::Packet(packet(from, to, portnum, payload)))
}

fn position_payload(latitude: i32, longitude: i32, altitude: i32) -> Vec<u8> {
    let mut position = protobufs::Position::default();
    position.latitude_i = Some(latitude);
    position.longitude_i = Some(longitude);
    position.altitude = Some(altitude);
    position.encode_to_vec()
}

fn device_metrics_payload(voltage: f32, battery: u32) -> Vec<u8> {
    let mut metrics = protobufs::DeviceMetrics::default();
    metrics.voltage = Some(voltage);
    metrics.battery_level = Some(battery);
    let mut telemetry = protobufs::Telemetry::default();
    telemetry.variant = Some(protobufs::telemetry::Variant::DeviceMetrics(metrics));
    telemetry.encode_to_vec()
}

fn environment_payload(temperature: f32) -> Vec<u8> {
    let mut metrics = protobufs::EnvironmentMetrics::default();
    metrics.temperature = Some(temperature);
    let mut telemetry = protobufs::Telemetry::default();
    telemetry.variant = Some(protobufs::telemetry::Variant::EnvironmentMetrics(metrics));
    telemetry.encode_to_vec()
}

fn neighbor_payload(node_id: u32, neighbors: &[(u32, f32, u32)]) -> Vec<u8> {
    let mut info = protobufs::NeighborInfo::default();
    info.node_id = node_id;
    for (id, snr, heard) in neighbors {
        let mut neighbor = protobufs::Neighbor::default();
        neighbor.node_id = *id;
        neighbor.snr = *snr;
        neighbor.last_rx_time = *heard;
        info.neighbors.push(neighbor);
    }
    info.encode_to_vec()
}

fn user_payload(id: &str, short: &str, long: &str) -> Vec<u8> {
    let mut user = protobufs::User::default();
    user.id = id.to_string();
    user.short_name = short.to_string();
    user.long_name = long.to_string();
    user.hw_model = 9;
    user.is_licensed = true;
    user.role = 2;
    user.encode_to_vec()
}

fn routing_payload(variant: Option<protobufs::routing::Variant>) -> Vec<u8> {
    let mut routing = protobufs::Routing::default();
    routing.variant = variant;
    routing.encode_to_vec()
}

fn route_payload(route: Vec<u32>) -> Vec<u8> {
    let mut discovery = protobufs::RouteDiscovery::default();
    discovery.route = route;
    discovery.encode_to_vec()
}

fn garbage() -> Vec<u8> {
    vec![0xff, 0xff, 0xff, 0xff, 0xff, 0xff, 0xff, 0xff, 0xff, 0xff, 0xff]
}

fn full_record(num: u32, short: &str, long: &str) -> NodeInfo {
    NodeInfo {
        num,
        user: Some(User {
            id: format!("!{:08x}", num),
            long_name: long.to_string(),
            short_name: short.to_string(),
            hw_model: 4,
            is_licensed: false,
            role: 0,
        }),
        position: None,
        snr_bits: 1.25f32.to_bits(),
        last_heard: 10,
        device_metrics: None,
        channel: 0,
        via_mqtt: false,
        hops_away: Some(1),
    }
}

#[test]
fn position_from_unknown_sender_makes_record() {
    let mut app = App::new();
    let notice = app.on_message(frame(100, 0, 3, position_payload(485_000_000, 23_000_000, 310)), 1000);
    assert_eq!(notice, Notice::Noted);
    assert_eq!(app.nodes_tab.node_list.len(), 1);
    let node = app.nodes_tab.get(100).unwrap();
    assert_eq!(node.id, 100);
    assert_eq!(node.node_info.user, None);
    assert_eq!(
        node.node_info.position,
        Some(Position {
            latitude_i: Some(485_000_000),
            longitude_i: Some(23_000_000),
            altitude: Some(310)
        })
    );
    assert_eq!(node.last_seen, 1000);
    assert_eq!(node.last_rssi, -90);
    assert_eq!(node.last_snr_bits, 6.5f32.to_bits());
}

#[test]
fn record_then_metrics_keeps_both() {
    let mut app = App::new();
    app.on_message(
        IPCMessage::FromRadio(RadioFrame::NodeInfo(full_record(200, "AB", "Alice Base"))),
        50,
    );
    app.on_message(frame(200, 0, 67, device_metrics_payload(3.7, 88)), 60);
    let node = app.nodes_tab.get(200).unwrap();
    let user = node.node_info.user.clone().unwrap();
    assert_eq!(user.short_name, "AB");
    assert_eq!(user.long_name, "Alice Base");
    let metrics = node.node_info.device_metrics.unwrap();
    assert_eq!(metrics.voltage_bits, Some(3.7f32.to_bits()));
    assert_eq!(f32::from_bits(metrics.voltage_bits.unwrap()), 3.7f32);
    assert_eq!(metrics.battery_level, Some(88));
    assert_eq!(node.last_seen, 60);
    assert_eq!(node.timeseries.len(), 1);
    assert_eq!(node.timeseries_start, 60);
}

#[test]
fn text_from_unknown_sender_is_dropped() {
    let mut app = App::new();
    let notice = app.on_message(frame(300, 0, 1, b"hello".to_vec()), 70);
    assert_eq!(notice, Notice::UnknownSender(300));
    assert_eq!(notice.severity(), Some(Severity::Info));
    assert_eq!(app.messages_tab.len(), 0);
    assert_eq!(app.nodes_tab.node_list.len(), 0);
}

#[test]
fn hex_id_parses_to_address() {
    assert_eq!(parse_node_id(&"!a1b2c3d4".to_string()), Some(0xa1b2c3d4));
    assert_eq!(parse_node_id(&"a1b2c3d4".to_string()), Some(0xa1b2c3d4));
    assert_eq!(parse_node_id(&"!!ff".to_string()), Some(255));
    assert_eq!(parse_node_id(&"!FFFFFFFF".to_string()), Some(u32::MAX));
}

#[test]
fn hex_id_that_is_no_address_is_rejected() {
    assert_eq!(parse_node_id(&"bogus".to_string()), None);
    assert_eq!(parse_node_id(&"!".to_string()), None);
    assert_eq!(parse_node_id(&"".to_string()), None);
    assert_eq!(parse_node_id(&"!0".to_string()), None);
    assert_eq!(parse_node_id(&"!00000000".to_string()), None);
    assert_eq!(parse_node_id(&"!1ffffffff".to_string()), None);
    assert_eq!(parse_node_id(&"!12 34".to_string()), None);
    assert_eq!(parse_node_id(&"a!b".to_string()), None);
}

#[test]
fn identity_frame_sets_identity_of_named_node() {
    let nodes = HashMap::new();
    let meaning = interpret(
        RadioFrame::Packet(packet(5, 0, 4, user_payload("!a1b2c3d4", "AB", "Alice Base"))),
        &nodes,
        9,
    );
    assert_eq!(meaning.notice, Notice::Noted);
    match meaning.response {
        Some(PacketResponse::UserUpdate(id, user)) => {
            assert_eq!(id, 0xa1b2c3d4);
            assert_eq!(user.id, "!a1b2c3d4");
            assert_eq!(user.short_name, "AB");
            assert_eq!(user.long_name, "Alice Base");
            assert_eq!(user.hw_model, 9);
            assert!(user.is_licensed);
            assert_eq!(user.role, 2);
        }
        other => panic!("unexpected response {:?}", other),
    }
}

#[test]
fn identity_frame_with_bad_id_is_rejected() {
    let nodes = HashMap::new();
    let meaning = interpret(
        RadioFrame::Packet(packet(5, 0, 4, user_payload("bogus", "AB", "Alice Base"))),
        &nodes,
        9,
    );
    assert_eq!(meaning.response, None);
    assert_eq!(meaning.notice, Notice::BadNodeId);
    assert_eq!(meaning.notice.severity(), Some(Severity::Error));
    let meaning = interpret(
        RadioFrame::Packet(packet(5, 0, 4, user_payload("!", "AB", "Alice Base"))),
        &nodes,
        9,
    );
    assert_eq!(meaning.response, None);
    assert_eq!(meaning.notice, Notice::BadNodeId);
}

#[test]
fn identity_applied_to_unknown_node_makes_confirmed_record() {
    let mut app = App::new();
    app.on_message(frame(5, 0, 4, user_payload("!0000002a", "X", "Xavier")), 33);
    let node = app.nodes_tab.get(42).unwrap();
    assert_eq!(node.id, 42);
    assert_eq!(node.last_seen, 33);
    assert_eq!(node.node_info.user.unwrap().long_name, "Xavier");
    assert!(app.nodes_tab.get(5).is_none());
}

#[test]
fn payload_that_does_not_decode_is_reported_per_port() {
    let nodes = HashMap::new();
    let ports = [
        (3, Port::Position),
        (67, Port::Telemetry),
        (71, Port::NeighborInfo),
        (4, Port::NodeInfo),
        (5, Port::Routing),
        (70, Port::Traceroute),
    ];
    for (number, port) in ports {
        let meaning = interpret(RadioFrame::Packet(packet(1, 2, number, garbage())), &nodes, 1);
        assert_eq!(meaning.response, None);
        assert_eq!(meaning.notice, Notice::DecodeFailure(port));
        assert_eq!(meaning.notice.severity(), Some(Severity::Error));
    }
}

#[test]
fn text_that_is_not_utf8_is_reported() {
    let mut nodes = HashMap::new();
    nodes.insert(1, meshtui::node::ComprehensiveNode::with_id(1));
    let meaning = interpret(RadioFrame::Packet(packet(1, 2, 1, vec![0xc3, 0x28])), &nodes, 1);
    assert_eq!(meaning.response, None);
    assert_eq!(meaning.notice, Notice::DecodeFailure(Port::TextMessage));
}

#[test]
fn port_number_decides_how_payload_is_read() {
    let nodes = HashMap::new();
    let payload = position_payload(1, 2, 3);
    let as_position = interpret(RadioFrame::Packet(packet(9, 0, 3, payload.clone())), &nodes, 4);
    assert_eq!(
        as_position.response,
        Some(PacketResponse::NodeUpdate(
            9,
            NodeChange::Position(Position {
                latitude_i: Some(1),
                longitude_i: Some(2),
                altitude: Some(3)
            }),
            Reception { seen_at: 4, rssi: -90, snr_bits: 6.5f32.to_bits() }
        ))
    );
    let as_reply = interpret(RadioFrame::Packet(packet(9, 0, 32, payload.clone())), &nodes, 4);
    assert_eq!(as_reply.response, None);
    assert_eq!(as_reply.notice, Notice::Noted);
    let as_admin = interpret(RadioFrame::Packet(packet(9, 0, 6, payload.clone())), &nodes, 4);
    assert_eq!(as_admin.response, None);
    assert_eq!(as_admin.notice, Notice::UnknownPort(6));
    assert_eq!(as_admin.notice.severity(), Some(Severity::Error));
    let undefined = interpret(RadioFrame::Packet(packet(9, 0, 9999, payload)), &nodes, 4);
    assert_eq!(undefined.notice, Notice::UnknownPort(9999));
    let negative = interpret(RadioFrame::Packet(packet(9, 0, -3, Vec::new())), &nodes, 4);
    assert_eq!(negative.notice, Notice::UnknownPort(-3));
}

#[test]
fn telemetry_from_unknown_sender_makes_placeholder() {
    let mut app = App::new();
    app.on_message(frame(77, 0, 67, device_metrics_payload(4.1, 101)), 500);
    let node = app.nodes_tab.get(77).unwrap();
    assert_eq!(node.node_info.user, None);
    assert_eq!(
        node.node_info.device_metrics,
        Some(DeviceMetrics {
            battery_level: Some(101),
            voltage_bits: Some(4.1f32.to_bits()),
            channel_utilization_bits: None,
            air_util_tx_bits: None,
        })
    );
    assert_eq!(node.timeseries.len(), 1);
    assert_eq!(node.timeseries[0].timestamp, 500);
    assert_eq!(node.timeseries[0].device, node.node_info.device_metrics.unwrap());
    assert_eq!(node.timeseries[0].rssi, -90);
}

#[test]
fn environment_metrics_join_series_and_keep_its_start() {
    let mut app = App::new();
    app.on_message(frame(77, 0, 67, environment_payload(21.5)), 500);
    app.on_message(frame(77, 0, 67, environment_payload(22.0)), 600);
    let node = app.nodes_tab.get(77).unwrap();
    assert_eq!(node.node_info.device_metrics, None);
    assert_eq!(node.timeseries.len(), 2);
    assert_eq!(node.timeseries_start, 500);
    assert_eq!(node.timeseries[0].environment.temperature_bits, Some(21.5f32.to_bits()));
    assert_eq!(node.timeseries[1].environment.temperature_bits, Some(22.0f32.to_bits()));
    assert_eq!(node.timeseries[1].timestamp, 600);
    assert_eq!(node.last_seen, 600);
}

#[test]
fn telemetry_of_another_kind_is_passed_over() {
    let nodes = HashMap::new();
    let mut telemetry = protobufs::Telemetry::default();
    telemetry.variant =
        Some(protobufs::telemetry::Variant::PowerMetrics(protobufs::PowerMetrics::default()));
    let meaning =
        interpret(RadioFrame::Packet(packet(1, 0, 67, telemetry.encode_to_vec())), &nodes, 1);
    assert_eq!(meaning.response, None);
    assert_eq!(meaning.notice, Notice::Silent);
    assert_eq!(meaning.notice.severity(), None);
    let empty = protobufs::Telemetry::default();
    let meaning = interpret(RadioFrame::Packet(packet(1, 0, 67, empty.encode_to_vec())), &nodes, 1);
    assert_eq!(meaning.response, None);
    assert_eq!(meaning.notice, Notice::Silent);
}

#[test]
fn neighbor_table_is_replaced_whole() {
    let mut app = App::new();
    app.on_message(
        frame(8, 0, 71, neighbor_payload(8, &[(1, 2.0, 10), (2, 3.0, 20), (3, 4.0, 30)])),
        100,
    );
    assert_eq!(app.nodes_tab.get(8).unwrap().neighbors.len(), 3);
    app.on_message(frame(8, 0, 71, neighbor_payload(8, &[(9, -1.5, 40)])), 200);
    let node = app.nodes_tab.get(8).unwrap();
    assert_eq!(
        node.neighbors,
        vec![Neighbor { node_id: 9, snr_bits: (-1.5f32).to_bits(), last_rx_time: 40 }]
    );
    assert_eq!(node.node_info.user, None);
    assert_eq!(node.last_seen, 200);
}

#[test]
fn neighbor_table_goes_to_reported_node_where_known() {
    let mut app = App::new();
    app.on_message(frame(7, 0, 3, position_payload(1, 1, 1)), 1);
    app.on_message(frame(5, 0, 71, neighbor_payload(7, &[(1, 2.0, 10)])), 2);
    assert_eq!(app.nodes_tab.get(7).unwrap().neighbors.len(), 1);
    assert!(app.nodes_tab.get(5).is_none());
    app.on_message(frame(5, 0, 71, neighbor_payload(6, &[(1, 2.0, 10), (2, 2.0, 10)])), 3);
    assert_eq!(app.nodes_tab.get(5).unwrap().neighbors.len(), 2);
    assert!(app.nodes_tab.get(6).is_none());
}

#[test]
fn routing_reports_are_logged_only() {
    let nodes = HashMap::new();
    let delivered = interpret(
        RadioFrame::Packet(packet(
            1,
            0,
            5,
            routing_payload(Some(protobufs::routing::Variant::ErrorReason(0))),
        )),
        &nodes,
        1,
    );
    assert_eq!(delivered.response, None);
    assert_eq!(delivered.notice, Notice::Delivered(42));
    assert_eq!(delivered.notice.severity(), Some(Severity::Debug));
    let failed = interpret(
        RadioFrame::Packet(packet(
            1,
            0,
            5,
            routing_payload(Some(protobufs::routing::Variant::ErrorReason(8))),
        )),
        &nodes,
        1,
    );
    assert_eq!(failed.response, None);
    assert_eq!(failed.notice, Notice::RoutingError(42, 8));
    assert_eq!(failed.notice.severity(), Some(Severity::Info));
    let request = interpret(
        RadioFrame::Packet(packet(
            1,
            0,
            5,
            routing_payload(Some(protobufs::routing::Variant::RouteRequest(
                protobufs::RouteDiscovery::default(),
            ))),
        )),
        &nodes,
        1,
    );
    assert_eq!(request.response, None);
    assert_eq!(request.notice, Notice::Noted);
    let reply = interpret(
        RadioFrame::Packet(packet(
            1,
            0,
            5,
            routing_payload(Some(protobufs::routing::Variant::RouteReply(
                protobufs::RouteDiscovery::default(),
            ))),
        )),
        &nodes,
        1,
    );
    assert_eq!(reply.notice, Notice::Noted);
    let nothing = interpret(RadioFrame::Packet(packet(1, 0, 5, routing_payload(None))), &nodes, 1);
    assert_eq!(nothing.response, None);
    assert_eq!(nothing.notice, Notice::Silent);
}

#[test]
fn traceroute_from_unknown_sender_is_an_error() {
    let mut app = App::new();
    let notice = app.on_message(frame(11, 22, 70, route_payload(vec![1, 2])), 5);
    assert_eq!(notice, Notice::UnknownRouteSource(11));
    assert_eq!(notice.severity(), Some(Severity::Error));
    assert_eq!(app.nodes_tab.node_list.len(), 0);
}

#[test]
fn traceroute_is_filed_under_destination_of_request() {
    let mut app = App::new();
    app.on_message(frame(11, 0, 3, position_payload(1, 1, 1)), 1);
    let notice = app.on_message(frame(11, 22, 70, route_payload(vec![5, 6, 7])), 2);
    assert_eq!(notice, Notice::Noted);
    app.on_message(frame(11, 33, 70, route_payload(Vec::new())), 3);
    let node = app.nodes_tab.get(11).unwrap();
    assert_eq!(node.route_list.len(), 2);
    assert_eq!(node.route_list.get(&22), Some(&vec![5, 6, 7]));
    assert_eq!(node.route_list.get(&33), Some(&Vec::new()));
    assert_eq!(node.last_seen, 3);
    app.on_message(frame(11, 22, 70, route_payload(vec![9])), 4);
    assert_eq!(app.nodes_tab.get(11).unwrap().route_list.get(&22), Some(&vec![9]));
}

#[test]
fn destination_is_classified_by_address() {
    assert_eq!(classify_destination(0), PacketDestination::Local);
    assert_eq!(classify_destination(u32::MAX), PacketDestination::Broadcast);
    assert_eq!(classify_destination(1), PacketDestination::Node(1));
    assert_eq!(classify_destination(u32::MAX - 1), PacketDestination::Node(u32::MAX - 1));
}

#[test]
fn text_from_known_sender_is_appended_with_snapshot() {
    let mut app = App::new();
    app.on_message(
        IPCMessage::FromRadio(RadioFrame::NodeInfo(full_record(200, "AB", "Alice Base"))),
        50,
    );
    let notice = app.on_message(frame(200, u32::MAX, 1, "gr\u{fc}\u{df}e".as_bytes().to_vec()), 60);
    assert_eq!(notice, Notice::Noted);
    assert_eq!(app.messages_tab.len(), 1);
    let shown = app.messages_tab.snapshot();
    assert_eq!(shown[0].message, "gr\u{fc}\u{df}e");
    assert_eq!(shown[0].timestamp, 555);
    assert_eq!(shown[0].destination, PacketDestination::Broadcast);
    assert_eq!(shown[0].channel, 2);
    assert_eq!(shown[0].rx_rssi, -90);
    assert_eq!(shown[0].rx_snr_bits, 6.5f32.to_bits());
    assert_eq!(shown[0].source, Some(full_record(200, "AB", "Alice Base")));
    let node = app.nodes_tab.get(200).unwrap();
    assert_eq!(node.last_seen, 60);
    assert_eq!(node.last_rssi, -90);
    app.on_message(frame(200, 0, 4, user_payload("!000000c8", "ZZ", "Renamed")), 70);
    let shown = app.messages_tab.snapshot();
    assert_eq!(shown[0].source.clone().unwrap().user.unwrap().short_name, "AB");
}

#[test]
fn text_to_local_and_to_node_keep_their_destination() {
    let mut nodes = HashMap::new();
    nodes.insert(1, meshtui::node::ComprehensiveNode::with_id(1));
    let local = interpret(RadioFrame::Packet(packet(1, 0, 1, b"a".to_vec())), &nodes, 1);
    match local.response {
        Some(PacketResponse::InboundMessage(m)) => {
            assert_eq!(m.destination, PacketDestination::Local);
            assert_eq!(m.source.unwrap().num, 1);
        }
        other => panic!("unexpected response {:?}", other),
    }
    let direct = interpret(RadioFrame::Packet(packet(1, 99, 1, b"a".to_vec())), &nodes, 1);
    match direct.response {
        Some(PacketResponse::InboundMessage(m)) => {
            assert_eq!(m.destination, PacketDestination::Node(99))
        }
        other => panic!("unexpected response {:?}", other),
    }
}

#[test]
fn own_address_is_recorded() {
    let mut app = App::new();
    let notice = app.on_message(IPCMessage::FromRadio(RadioFrame::MyInfo(4242)), 1);
    assert_eq!(notice, Notice::Noted);
    assert_eq!(app.nodes_tab.my_node_id, 4242);
    assert_eq!(app.nodes_tab.node_list.len(), 0);
}

#[test]
fn full_record_replaces_everything_known() {
    let mut app = App::new();
    app.on_message(frame(200, 0, 3, position_payload(1, 2, 3)), 10);
    app.on_message(frame(200, 0, 71, neighbor_payload(200, &[(1, 2.0, 10)])), 11);
    app.on_message(frame(200, 0, 67, device_metrics_payload(3.3, 50)), 12);
    app.on_message(
        IPCMessage::FromRadio(RadioFrame::NodeInfo(full_record(200, "AB", "Alice Base"))),
        20,
    );
    let node = app.nodes_tab.get(200).unwrap();
    assert_eq!(node.node_info, full_record(200, "AB", "Alice Base"));
    assert_eq!(node.neighbors.len(), 0);
    assert_eq!(node.timeseries.len(), 0);
    assert_eq!(node.timeseries_start, 0);
    assert_eq!(node.route_list.len(), 0);
    assert_eq!(node.last_seen, 20);
    assert_eq!(node.last_rssi, 0);
    assert_eq!(node.last_snr_bits, 1.25f32.to_bits());
    assert_eq!(node.id, 200);
}

#[test]
fn radio_log_is_passed_on_at_its_level() {
    let nodes = HashMap::new();
    let levels = [
        (50, Severity::Error),
        (40, Severity::Error),
        (30, Severity::Warn),
        (20, Severity::Info),
        (10, Severity::Debug),
        (5, Severity::Trace),
        (0, Severity::Info),
        (99, Severity::Info),
        (-1, Severity::Info),
    ];
    for (level, severity) in levels {
        let meaning = interpret(
            RadioFrame::LogRecord(LogRecord { message: "boot".to_string(), level }),
            &nodes,
            1,
        );
        assert_eq!(meaning.response, None);
        assert_eq!(meaning.notice, Notice::RadioLog(level));
        assert_eq!(meaning.notice.severity(), Some(severity));
    }
}

#[test]
fn severity_follows_the_level() {
    let levels = [
        (LogLevel::Critical, Severity::Error),
        (LogLevel::Error, Severity::Error),
        (LogLevel::Warning, Severity::Warn),
        (LogLevel::Info, Severity::Info),
        (LogLevel::Debug, Severity::Debug),
        (LogLevel::Trace, Severity::Trace),
        (LogLevel::Unset, Severity::Info),
    ];
    for (level, severity) in levels {
        assert_eq!(severity_for(level), severity);
    }
    assert_eq!(classify_level(50), Severity::Error);
    assert_eq!(classify_level(30), Severity::Warn);
    assert_eq!(classify_level(5), Severity::Trace);
    assert_eq!(classify_level(7), Severity::Info);
    assert_eq!(classify_level(i32::MIN), Severity::Info);
}

#[test]
fn frames_without_state_are_logged_at_most() {
    let nodes = HashMap::new();
    let cases = vec![
        (RadioFrame::ConfigCompleteId(7), Notice::Noted),
        (RadioFrame::Rebooted(true), Notice::Noted),
        (RadioFrame::Rebooted(false), Notice::Silent),
        (
            RadioFrame::QueueStatus(QueueStatus { res: 0, free: 1, maxlen: 2, mesh_packet_id: 3 }),
            Notice::QueueReport,
        ),
        (RadioFrame::XmodemPacket, Notice::Noted),
        (RadioFrame::Metadata("2.3.0".to_string()), Notice::Noted),
        (RadioFrame::MqttClientProxyMessage, Notice::Noted),
        (RadioFrame::Unrecognized, Notice::UnknownFrame),
        (RadioFrame::Empty, Notice::Silent),
        (RadioFrame::Config(None), Notice::Noted),
        (RadioFrame::ModuleConfig(None), Notice::Noted),
    ];
    for (frame, notice) in cases {
        let meaning = interpret(frame, &nodes, 1);
        assert_eq!(meaning.response, None);
        assert_eq!(meaning.notice, notice);
    }
    assert_eq!(Notice::QueueReport.severity(), Some(Severity::Debug));
    assert_eq!(Notice::UnknownFrame.severity(), Some(Severity::Error));
    assert_eq!(Notice::Noted.severity(), Some(Severity::Info));
}

#[test]
fn packets_without_application_data_ask_for_nothing() {
    let nodes = HashMap::new();
    let mut encrypted = packet(1, 2, 3, Vec::new());
    encrypted.payload_variant = Some(PacketPayload::Encrypted);
    let meaning = interpret(RadioFrame::Packet(encrypted), &nodes, 1);
    assert_eq!(meaning.response, None);
    assert_eq!(meaning.notice, Notice::Noted);
    let mut bare = packet(1, 2, 3, Vec::new());
    bare.payload_variant = None;
    let meaning = interpret(RadioFrame::Packet(bare), &nodes, 1);
    assert_eq!(meaning.response, None);
    assert_eq!(meaning.notice, Notice::Silent);
}

#[test]
fn factory_channel_gets_a_name() {
    let factory = Channel {
        index: 0,
        settings: Some(ChannelSettings {
            psk: vec![1],
            name: String::new(),
            id: 0,
            uplink_enabled: false,
            downlink_enabled: true,
        }),
        role: 1,
    };
    let stored = label_default_channel(factory.clone());
    let settings = stored.settings.clone().unwrap();
    assert_eq!(settings.name, "LongFast (Default)");
    assert_eq!(settings.psk, vec![1]);
    assert!(settings.downlink_enabled);
    assert_eq!(stored.index, 0);
    assert_eq!(stored.role, 1);

    let mut other_slot = factory.clone();
    other_slot.index = 1;
    let stored = label_default_channel(other_slot.clone());
    assert_eq!(stored.settings.clone().unwrap().name, "LongFast (Default)");
    assert_eq!(stored.settings.unwrap().psk, vec![1]);
    assert_eq!(stored.index, 1);
    assert_eq!(stored.role, 1);
    let mut last_slot = factory.clone();
    last_slot.index = -7;
    assert_eq!(
        label_default_channel(last_slot).settings.unwrap().name,
        "LongFast (Default)"
    );
    let mut named = factory.clone();
    named.settings.as_mut().unwrap().name = "Mine".to_string();
    assert_eq!(label_default_channel(named.clone()), named);
    let mut keyed = factory.clone();
    keyed.settings.as_mut().unwrap().psk = vec![1, 2];
    assert_eq!(label_default_channel(keyed.clone()), keyed);
    let mut other_key = factory.clone();
    other_key.settings.as_mut().unwrap().psk = vec![2];
    assert_eq!(label_default_channel(other_key.clone()), other_key);
    let mut no_key = factory.clone();
    no_key.settings.as_mut().unwrap().psk = Vec::new();
    assert_eq!(label_default_channel(no_key.clone()), no_key);
    let bare = Channel { index: 0, settings: None, role: 0 };
    assert_eq!(label_default_channel(bare.clone()), bare);
}

#[test]
fn channel_without_settings_is_not_stored() {
    let mut app = App::new();
    let notice = app.on_message(
        IPCMessage::FromRadio(RadioFrame::Channel(Channel { index: 3, settings: None, role: 0 })),
        1,
    );
    assert_eq!(notice, Notice::Silent);
    assert!(app.device_config.is_none());
}

#[test]
fn only_frames_from_radio_are_interpreted() {
    let nodes = HashMap::new();
    assert_eq!(process_packet(IPCMessage::ExitingThread, &nodes), None);
    assert_eq!(
        process_packet(IPCMessage::FromRadio(RadioFrame::MyInfo(9)), &nodes),
        Some(PacketResponse::OurAddress(9))
    );
    let response = process_packet(frame(100, 0, 3, position_payload(1, 2, 3)), &nodes);
    match response {
        Some(PacketResponse::NodeUpdate(100, NodeChange::Position(_), rx)) => {
            assert_eq!(rx.rssi, -90);
            assert_eq!(rx.snr_bits, 6.5f32.to_bits());
        }
        other => panic!("unexpected response {:?}", other),
    }
    let mut app = App::new();
    assert_eq!(app.on_message(IPCMessage::ExitingThread, 1), Notice::Silent);
    assert_eq!(app.nodes_tab.node_list.len(), 0);
}

#[test]
fn later_frame_decides_a_field() {
    let first = position_payload(10, 10, 10);
    let second = position_payload(20, 20, 20);
    let mut app = App::new();
    app.on_message(frame(1, 0, 3, first.clone()), 100);
    app.on_message(frame(1, 0, 3, second.clone()), 200);
    assert_eq!(app.nodes_tab.get(1).unwrap().node_info.position.unwrap().latitude_i, Some(20));
    assert_eq!(app.nodes_tab.get(1).unwrap().last_seen, 200);
    let mut swapped = App::new();
    swapped.on_message(frame(1, 0, 3, second), 100);
    swapped.on_message(frame(1, 0, 3, first), 200);
    assert_eq!(swapped.nodes_tab.get(1).unwrap().node_info.position.unwrap().latitude_i, Some(10));
}

#[test]
fn refreshing_between_frames_changes_no_record() {
    let frames = vec![
        frame(1, 0, 3, position_payload(10, 10, 10)),
        frame(2, 0, 67, device_metrics_payload(3.9, 70)),
        frame(1, 0, 71, neighbor_payload(1, &[(2, 1.0, 5)])),
    ];
    let more = vec![
        frame(1, 0, 3, position_payload(10, 10, 10)),
        frame(2, 0, 67, device_metrics_payload(3.9, 70)),
        frame(1, 0, 71, neighbor_payload(1, &[(2, 1.0, 5)])),
    ];
    let mut plain = App::new();
    let mut now = 10;
    for f in frames {
        plain.on_message(f, now);
        now += 1;
    }
    let mut drawn = App::new();
    drawn.tab = meshtui::app::MenuTabs::Nodes;
    let mut now = 10;
    for f in more {
        drawn.refresh(20);
        drawn.on_key(meshtui::app::Key::Down);
        drawn.on_message(f, now);
        drawn.refresh(20);
        now += 1;
    }
    assert_eq!(plain.nodes_tab.node_list, drawn.nodes_tab.node_list);
}

fn rx_at(now: u64) -> Reception {
    Reception { seen_at: now, rssi: -90, snr_bits: 6.5f32.to_bits() }
}

fn quiet(notice: Notice) -> Interpretation {
    Interpretation { response: None, notice }
}

fn asks(response: PacketResponse) -> Interpretation {
    Interpretation { response: Some(response), notice: Notice::Noted }
}

#[test]
fn decoded_position_becomes_update_of_sender() {
    let envelope = packet(100, 0, 3, Vec::new());
    let fix = Position { latitude_i: Some(-5), longitude_i: None, altitude: Some(0) };
    assert_eq!(
        position_response(&envelope, Some(fix), 12),
        asks(PacketResponse::NodeUpdate(100, NodeChange::Position(fix), rx_at(12)))
    );
    assert_eq!(
        position_response(&envelope, None, 12),
        quiet(Notice::DecodeFailure(Port::Position))
    );
}

#[test]
fn decoded_telemetry_becomes_update_by_kind() {
    let envelope = packet(7, 0, 67, Vec::new());
    let device = DeviceMetrics {
        battery_level: Some(55),
        voltage_bits: None,
        channel_utilization_bits: Some(1.5f32.to_bits()),
        air_util_tx_bits: Some(0.25f32.to_bits()),
    };
    let weather = EnvironmentMetrics {
        temperature_bits: Some(20.0f32.to_bits()),
        relative_humidity_bits: Some(40.0f32.to_bits()),
        barometric_pressure_bits: None,
    };
    assert_eq!(
        telemetry_response(&envelope, Some(TelemetryReading::Device(device)), 3),
        asks(PacketResponse::NodeUpdate(7, NodeChange::DeviceMetrics(device), rx_at(3)))
    );
    assert_eq!(
        telemetry_response(&envelope, Some(TelemetryReading::Environment(weather)), 3),
        asks(PacketResponse::NodeUpdate(7, NodeChange::EnvironmentMetrics(weather), rx_at(3)))
    );
    assert_eq!(telemetry_response(&envelope, Some(TelemetryReading::Other), 3), quiet(Notice::Silent));
    assert_eq!(telemetry_response(&envelope, Some(TelemetryReading::Absent), 3), quiet(Notice::Silent));
    assert_eq!(
        telemetry_response(&envelope, None, 3),
        quiet(Notice::DecodeFailure(Port::Telemetry))
    );
}

#[test]
fn decoded_neighbors_go_to_reported_node_or_sender() {
    let envelope = packet(5, 0, 71, Vec::new());
    let table = vec![Neighbor { node_id: 1, snr_bits: 2, last_rx_time: 3 }];
    let mut nodes = HashMap::new();
    assert_eq!(
        neighbor_response(
            &envelope,
            Some(NeighborInfo { node_id: 7, neighbors: table.clone() }),
            &nodes,
            4
        ),
        asks(PacketResponse::NodeUpdate(5, NodeChange::Neighbors(table.clone()), rx_at(4)))
    );
    nodes.insert(7, meshtui::node::ComprehensiveNode::with_id(7));
    assert_eq!(
        neighbor_response(
            &envelope,
            Some(NeighborInfo { node_id: 7, neighbors: table.clone() }),
            &nodes,
            4
        ),
        asks(PacketResponse::NodeUpdate(7, NodeChange::Neighbors(table), rx_at(4)))
    );
    assert_eq!(
        neighbor_response(&envelope, None, &nodes, 4),
        quiet(Notice::DecodeFailure(Port::NeighborInfo))
    );
}

#[test]
fn decoded_identity_goes_to_node_named_by_id() {
    let user = User {
        id: "!0000beef".to_string(),
        long_name: "Beef".to_string(),
        short_name: "B".to_string(),
        hw_model: 1,
        is_licensed: false,
        role: 0,
    };
    assert_eq!(
        identity_response(Some(user.clone())),
        asks(PacketResponse::UserUpdate(0xbeef, user.clone()))
    );
    let mut unnamed = user;
    unnamed.id = "!zz".to_string();
    assert_eq!(identity_response(Some(unnamed)), quiet(Notice::BadNodeId));
    assert_eq!(identity_response(None), quiet(Notice::DecodeFailure(Port::NodeInfo)));
}

#[test]
fn decoded_routing_report_is_logged_with_request_id() {
    assert_eq!(routing_response(9, Some(RoutingReport::ErrorReason(0))), quiet(Notice::Delivered(9)));
    assert_eq!(
        routing_response(9, Some(RoutingReport::ErrorReason(-2))),
        quiet(Notice::RoutingError(9, -2))
    );
    assert_eq!(routing_response(9, Some(RoutingReport::RouteRequest)), quiet(Notice::Noted));
    assert_eq!(routing_response(9, Some(RoutingReport::RouteReply)), quiet(Notice::Noted));
    assert_eq!(routing_response(9, Some(RoutingReport::Absent)), quiet(Notice::Silent));
    assert_eq!(routing_response(9, None), quiet(Notice::DecodeFailure(Port::Routing)));
}

#[test]
fn decoded_route_needs_a_record_of_the_sender() {
    let envelope = packet(11, 22, 70, Vec::new());
    let mut nodes = HashMap::new();
    assert_eq!(
        traceroute_response(&envelope, Some(vec![1, 2]), &nodes, 8),
        quiet(Notice::UnknownRouteSource(11))
    );
    nodes.insert(11, meshtui::node::ComprehensiveNode::with_id(11));
    assert_eq!(
        traceroute_response(&envelope, Some(vec![1, 2]), &nodes, 8),
        asks(PacketResponse::NodeUpdate(11, NodeChange::Route(22, vec![1, 2]), rx_at(8)))
    );
    assert_eq!(
        traceroute_response(&envelope, None, &nodes, 8),
        quiet(Notice::DecodeFailure(Port::Traceroute))
    );
}

#[test]
fn decoded_text_needs_a_record_of_the_sender() {
    let envelope = packet(11, 22, 1, Vec::new());
    let mut nodes = HashMap::new();
    assert_eq!(
        text_response(&envelope, Some("hi".to_string()), &nodes),
        quiet(Notice::UnknownSender(11))
    );
    assert_eq!(
        text_response(&envelope, None, &nodes),
        quiet(Notice::DecodeFailure(Port::TextMessage))
    );
    nodes.insert(11, meshtui::node::ComprehensiveNode::with_id(11));
    match text_response(&envelope, Some("hi".to_string()), &nodes).response {
        Some(PacketResponse::InboundMessage(m)) => {
            assert_eq!(m.message, "hi");
            assert_eq!(m.timestamp, 555);
            assert_eq!(m.destination, PacketDestination::Node(22));
            assert_eq!(m.source, Some(NodeInfo {
                num: 11,
                user: None,
                position: None,
                snr_bits: 0,
                last_heard: 0,
                device_metrics: None,
                channel: 0,
                via_mqtt: false,
                hops_away: None,
            }));
        }
        other => panic!("unexpected response {:?}", other),
    }
}
