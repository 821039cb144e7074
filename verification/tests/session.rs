use meshtui::app::Connection;
use meshtui::clap::{CliArgs, DEFAULT_TCP_PORT};
use meshtui::consts::{MPSC_BUFFER_SIZE, POLL_INTERVAL_MS};
use meshtui::frame::{PacketDestination, Port};
use meshtui::ipc::{IPCMessage, RadioFrame};
use meshtui::meshtastic_interaction::{
    event_of, poll_step, ConnectPlan, DeviceUpdateError, RadioCommand, SessionEvent,
    SessionState, Supervisor, SupervisorAction, TaskReport,
};
use tokio::sync::mpsc;
use meshtui::util::{get_secs, request_traceroute, seconds_or_zero, send_text};

fn tcp() -> Connection {
    Connection::TCP("10.0.0.5".to_string(), 4403)
}

#[test]
fn supervisor_needs_a_target() {
    assert_eq!(Supervisor::start(Connection::Unset), None);
    let supervisor = Supervisor::start(tcp()).unwrap();
    assert_eq!(supervisor.state, SessionState::Connecting);
    assert_eq!(supervisor.connection, tcp());
    assert_eq!(supervisor.respawns, 0);
    assert_eq!(
        supervisor.connect_plan(),
        Some(ConnectPlan::Tcp("10.0.0.5".to_string(), 4403))
    );
    let serial = Supervisor::start(Connection::Serial("/dev/ttyUSB0".to_string())).unwrap();
    assert_eq!(serial.connect_plan(), Some(ConnectPlan::Serial("/dev/ttyUSB0".to_string())));
}

#[test]
fn every_failure_starts_a_new_session() {
    for failure in
        [SessionEvent::ConnectFailed, SessionEvent::TransportFailed, SessionEvent::TaskEnded]
    {
        for state in [SessionState::Connecting, SessionState::Connected] {
            let mut supervisor = Supervisor { state, connection: tcp(), respawns: 3 };
            assert_eq!(supervisor.on_event(failure), SupervisorAction::Respawn);
            assert_eq!(supervisor.state, SessionState::Connecting);
            assert_eq!(supervisor.respawns, 4);
            assert_eq!(supervisor.connection, tcp());
        }
    }
}

#[test]
fn no_end_of_the_session_task_is_fatal() {
    assert_eq!(event_of(TaskReport::Alive), SessionEvent::TaskAlive);
    assert_eq!(event_of(TaskReport::CouldNotConnect), SessionEvent::ConnectFailed);
    assert_eq!(event_of(TaskReport::TransportBroke), SessionEvent::TransportFailed);
    assert_eq!(event_of(TaskReport::Returned), SessionEvent::TaskEnded);
    assert_eq!(event_of(TaskReport::Panicked), SessionEvent::TaskEnded);
    for report in [
        TaskReport::CouldNotConnect,
        TaskReport::TransportBroke,
        TaskReport::Returned,
        TaskReport::Panicked,
    ] {
        let mut supervisor = Supervisor::start(tcp()).unwrap();
        supervisor.on_event(SessionEvent::ConnectSucceeded);
        assert_eq!(supervisor.on_event(event_of(report)), SupervisorAction::Respawn);
        assert_eq!(supervisor.state, SessionState::Connecting);
        assert_eq!(supervisor.connection, tcp());
    }
}

#[test]
fn retries_are_not_limited() {
    let mut supervisor = Supervisor::start(tcp()).unwrap();
    for round in 1..=1000u64 {
        assert_eq!(supervisor.on_event(SessionEvent::ConnectFailed), SupervisorAction::Respawn);
        assert_eq!(supervisor.respawns, round);
    }
    supervisor.respawns = u64::MAX;
    assert_eq!(supervisor.on_event(SessionEvent::TaskEnded), SupervisorAction::Respawn);
    assert_eq!(supervisor.respawns, u64::MAX);
}

#[test]
fn connected_session_is_polled() {
    let mut supervisor = Supervisor::start(tcp()).unwrap();
    assert_eq!(supervisor.on_event(SessionEvent::TaskAlive), SupervisorAction::Wait);
    assert_eq!(supervisor.state, SessionState::Connecting);
    assert_eq!(supervisor.on_event(SessionEvent::ConnectSucceeded), SupervisorAction::Poll);
    assert_eq!(supervisor.state, SessionState::Connected);
    assert_eq!(supervisor.on_event(SessionEvent::TaskAlive), SupervisorAction::Poll);
    assert_eq!(supervisor.state, SessionState::Connected);
    assert_eq!(supervisor.respawns, 0);
}

#[test]
fn text_sent_after_failure_is_delivered_by_new_session() {
    let mut supervisor = Supervisor::start(tcp()).unwrap();
    let (mut outbound_tx, mut outbound_rx) = mpsc::channel::<IPCMessage>(MPSC_BUFFER_SIZE);
    assert_eq!(supervisor.on_event(SessionEvent::ConnectSucceeded), SupervisorAction::Poll);
    assert!(outbound_tx
        .try_send(send_text(0, PacketDestination::Broadcast, "lost".to_string()))
        .is_ok());

    assert_eq!(supervisor.on_event(SessionEvent::TaskEnded), SupervisorAction::Respawn);
    assert_eq!(supervisor.state, SessionState::Connecting);
    assert_eq!(supervisor.connection, tcp());
    assert_eq!(
        supervisor.connect_plan(),
        Some(ConnectPlan::Tcp("10.0.0.5".to_string(), 4403))
    );
    (outbound_tx, outbound_rx) = mpsc::channel::<IPCMessage>(MPSC_BUFFER_SIZE);

    assert!(outbound_tx
        .try_send(send_text(1, PacketDestination::Node(9), "kept".to_string()))
        .is_ok());
    assert_eq!(supervisor.on_event(SessionEvent::TaskAlive), SupervisorAction::Wait);

    assert_eq!(supervisor.on_event(SessionEvent::ConnectSucceeded), SupervisorAction::Poll);
    let plan = poll_step(None, outbound_rx.try_recv().ok());
    assert_eq!(
        plan.to_radio,
        Some(RadioCommand::SendText {
            text: "kept".to_string(),
            destination: PacketDestination::Node(9),
            want_ack: true,
            channel: 1,
        })
    );
    assert!(!plan.unknown_command);
    let idle = poll_step(None, outbound_rx.try_recv().ok());
    assert_eq!(idle.to_radio, None);
    assert!(!idle.unknown_command);
}

#[test]
fn poll_moves_at_most_one_message_each_way() {
    let plan = poll_step(Some(RadioFrame::MyInfo(5)), Some(request_traceroute(77)));
    assert_eq!(plan.to_foreground, Some(IPCMessage::FromRadio(RadioFrame::MyInfo(5))));
    match plan.to_radio {
        Some(RadioCommand::SendPacket(packet)) => {
            assert_eq!(packet.to, 77);
            assert_eq!(packet.port, Port::Traceroute);
            assert!(packet.want_response);
        }
        other => panic!("unexpected command {:?}", other),
    }
    assert!(!plan.unknown_command);
    assert_eq!(plan.sleep_ms, 250);
    assert_eq!(POLL_INTERVAL_MS, 250);

    let idle = poll_step(None, None);
    assert_eq!(idle.to_foreground, None);
    assert_eq!(idle.to_radio, None);
    assert!(!idle.unknown_command);
    assert_eq!(idle.sleep_ms, 250);

    let odd = poll_step(None, Some(IPCMessage::ExitingThread));
    assert_eq!(odd.to_radio, None);
    assert!(odd.unknown_command);
    let echo = poll_step(None, Some(IPCMessage::FromRadio(RadioFrame::Empty)));
    assert_eq!(echo.to_radio, None);
    assert!(echo.unknown_command);
}

#[test]
fn channels_hold_one_hundred_messages() {
    assert_eq!(MPSC_BUFFER_SIZE, 100);
}

#[test]
fn command_line_names_the_target() {
    let both = CliArgs {
        ip: Some("10.0.0.5".to_string()),
        serial_port: Some("/dev/ttyUSB0".to_string()),
        tcp_port: 4403,
    };
    assert_eq!(both.connection(), Connection::TCP("10.0.0.5".to_string(), 4403));
    let host = CliArgs { ip: Some("radio.local".to_string()), serial_port: None, tcp_port: 9 };
    assert_eq!(host.connection(), Connection::TCP("radio.local".to_string(), 9));
    let serial =
        CliArgs { ip: None, serial_port: Some("/dev/ttyUSB0".to_string()), tcp_port: 4403 };
    assert_eq!(serial.connection(), Connection::Serial("/dev/ttyUSB0".to_string()));
    let neither = CliArgs { ip: None, serial_port: None, tcp_port: DEFAULT_TCP_PORT };
    assert_eq!(neither.clone().connection(), Connection::Unset);
    assert_eq!(Supervisor::start(neither.connection()), None);
    assert_eq!(DEFAULT_TCP_PORT, 4403);
}

#[test]
fn commands_for_the_radio() {
    match send_text(3, PacketDestination::Local, "hi".to_string()) {
        IPCMessage::SendMessage(envelope) => {
            assert_eq!(envelope.message, "hi");
            assert_eq!(envelope.channel, 3);
            assert_eq!(envelope.destination, PacketDestination::Local);
            assert_eq!(envelope.source, None);
            assert_eq!(envelope.timestamp, 0);
        }
        other => panic!("unexpected command {:?}", other),
    }
    match request_traceroute(0xdead_beef) {
        IPCMessage::ToRadio(packet) => assert_eq!(packet.to, 0xdead_beef),
        other => panic!("unexpected command {:?}", other),
    }
}

#[test]
fn clock_before_the_epoch_counts_as_zero() {
    assert_eq!(seconds_or_zero(None), 0);
    assert_eq!(seconds_or_zero(Some(0)), 0);
    assert_eq!(seconds_or_zero(Some(1_700_000_000)), 1_700_000_000);
    assert_eq!(seconds_or_zero(Some(u64::MAX)), u64::MAX);
}

#[test]
fn clock_can_be_read() {
    let first = get_secs();
    let second = get_secs();
    assert_eq!(seconds_or_zero(Some(first)), first);
    assert_eq!(seconds_or_zero(Some(second)), second);
}

#[test]
fn failure_is_shown_by_the_name_of_its_kind() {
    assert_eq!(DeviceUpdateError::PacketNotSupported("x".to_string()).to_string(), "PacketNotSupported");
    assert_eq!(
        DeviceUpdateError::RadioMessageNotSupported("x".to_string()).to_string(),
        "RadioMessageNotSupported"
    );
    assert_eq!(DeviceUpdateError::DecodeFailure("x".to_string()).to_string(), "DecodeFailure");
    assert_eq!(DeviceUpdateError::GeneralFailure(String::new()).to_string(), "GeneralFailure");
    assert_eq!(
        DeviceUpdateError::EventDispatchFailure("x".to_string()).to_string(),
        "EventDispatchFailure"
    );
    assert_eq!(
        DeviceUpdateError::NotificationDispatchFailure("x".to_string()).to_string(),
        "NotificationDispatchFailure"
    );
}
