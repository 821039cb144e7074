//! The session with the radio: what the supervisor decides when the session task starts,
//! fails or is due for a poll. Connecting, sending and sleeping are left to the caller.

use vstd::prelude::*;
use crate::app::Connection;
use crate::consts::POLL_INTERVAL_MS;
use crate::frame::PacketDestination;
use crate::ipc::{IPCMessage, OutboundPacket, RadioFrame};
use crate::tabs::messages::MessageEnvelope;

verus! {

/// Why an update from the radio could not be handled.
#[derive(Clone, Debug, PartialEq, Eq)]
pub enum DeviceUpdateError {
    PacketNotSupported(String),
    RadioMessageNotSupported(String),
    DecodeFailure(String),
    GeneralFailure(String),
    EventDispatchFailure(String),
    NotificationDispatchFailure(String),
}

impl DeviceUpdateError {
    /// The name of the kind of failure.
    pub open spec fn spec_name(self) -> Seq<char> {
        match self {
            DeviceUpdateError::PacketNotSupported(_) => "PacketNotSupported"@,
            DeviceUpdateError::RadioMessageNotSupported(_) => "RadioMessageNotSupported"@,
            DeviceUpdateError::DecodeFailure(_) => "DecodeFailure"@,
            DeviceUpdateError::GeneralFailure(_) => "GeneralFailure"@,
            DeviceUpdateError::EventDispatchFailure(_) => "EventDispatchFailure"@,
            DeviceUpdateError::NotificationDispatchFailure(_) => "NotificationDispatchFailure"@,
        }
    }

    /// The text shown for the failure: the name of its kind.
    pub fn to_string(&self) -> (text: String)
        ensures
            text@ == self.spec_name(),
    {
        match self {
            DeviceUpdateError::PacketNotSupported(_) => "PacketNotSupported".to_owned(),
            DeviceUpdateError::RadioMessageNotSupported(_) => "RadioMessageNotSupported".to_owned(),
            DeviceUpdateError::DecodeFailure(_) => "DecodeFailure".to_owned(),
            DeviceUpdateError::GeneralFailure(_) => "GeneralFailure".to_owned(),
            DeviceUpdateError::EventDispatchFailure(_) => "EventDispatchFailure".to_owned(),
            DeviceUpdateError::NotificationDispatchFailure(_) => "NotificationDispatchFailure"
                .to_owned(),
        }
    }
}

/// Whether a session with the radio is being set up or is running.
#[derive(Clone, Copy, Debug, PartialEq, Eq, Structural)]
pub enum SessionState {
    Connecting,
    Connected,
}

/// What the supervisor is told about the session task.
#[derive(Clone, Copy, Debug, PartialEq, Eq, Structural)]
pub enum SessionEvent {
    /// The transport is open and the radio has answered.
    ConnectSucceeded,
    /// The transport could not be opened.
    ConnectFailed,
    /// Reading from or writing to the transport failed.
    TransportFailed,
    /// The session task has ended with an error.
    TaskEnded,
    /// The session task is still running.
    TaskAlive,
}

/// What the owner of the session task finds when it looks at the task.
#[derive(Clone, Copy, Debug, PartialEq, Eq, Structural)]
pub enum TaskReport {
    /// The task is still running.
    Alive,
    /// The task ended because it could not open the transport.
    CouldNotConnect,
    /// The task ended because reading from or writing to the transport failed.
    TransportBroke,
    /// The task returned without an error.
    Returned,
    /// The task panicked or was cancelled.
    Panicked,
}

/// What the supervisor asks its caller to do.
#[derive(Clone, Copy, Debug, PartialEq, Eq, Structural)]
pub enum SupervisorAction {
    /// Nothing to do but wait for the connection.
    Wait,
    /// Go on polling the radio.
    Poll,
    /// Drop both channels, make a fresh pair and start a session task against the same
    /// target.
    Respawn,
}

/// How the transport is opened.
#[derive(Clone, Debug, PartialEq, Eq)]
pub enum ConnectPlan {
    /// Open a TCP stream to this host and port.
    Tcp(String, u16),
    /// Open this serial device.
    Serial(String),
}

/// The supervisor of the session: its state, the target it connects to, and the number of
/// times it had to start the session anew.
#[derive(Debug, PartialEq, Eq)]
pub struct Supervisor {
    pub state: SessionState,
    pub connection: Connection,
    pub respawns: u64,
}

/// The event that a look at the session task stands for. However the task ended, the
/// session is over and has to be set up anew: no end of the task is fatal.
pub open spec fn event_for(report: TaskReport) -> SessionEvent {
    match report {
        TaskReport::Alive => SessionEvent::TaskAlive,
        TaskReport::CouldNotConnect => SessionEvent::ConnectFailed,
        TaskReport::TransportBroke => SessionEvent::TransportFailed,
        TaskReport::Returned => SessionEvent::TaskEnded,
        TaskReport::Panicked => SessionEvent::TaskEnded,
    }
}

/// Says which event a look at the session task stands for.
pub fn event_of(report: TaskReport) -> (event: SessionEvent)
    ensures
        event == event_for(report),
{
    match report {
        TaskReport::Alive => SessionEvent::TaskAlive,
        TaskReport::CouldNotConnect => SessionEvent::ConnectFailed,
        TaskReport::TransportBroke => SessionEvent::TransportFailed,
        TaskReport::Returned => SessionEvent::TaskEnded,
        TaskReport::Panicked => SessionEvent::TaskEnded,
    }
}

/// Whether an event reports a failure of the session.
pub open spec fn is_failure(event: SessionEvent) -> bool {
    event == SessionEvent::ConnectFailed || event == SessionEvent::TransportFailed || event
        == SessionEvent::TaskEnded
}

/// The state after an event: connected once the connection stands, connecting again after
/// any failure, and unchanged while the task merely runs.
pub open spec fn state_after(state: SessionState, event: SessionEvent) -> SessionState {
    if is_failure(event) {
        SessionState::Connecting
    } else if event == SessionEvent::ConnectSucceeded {
        SessionState::Connected
    } else {
        state
    }
}

/// What there is to do after an event: every failure asks for a new session, without
/// delay and without limit; a session that is connected is polled.
pub open spec fn action_after(state: SessionState, event: SessionEvent) -> SupervisorAction {
    if is_failure(event) {
        SupervisorAction::Respawn
    } else if state_after(state, event) == SessionState::Connected {
        SupervisorAction::Poll
    } else {
        SupervisorAction::Wait
    }
}

/// The number of new starts after an event, which stops counting at the highest number.
pub open spec fn respawns_after(respawns: u64, event: SessionEvent) -> u64 {
    if is_failure(event) && respawns < u64::MAX {
        (respawns + 1) as u64
    } else {
        respawns
    }
}

impl Supervisor {
    /// Whether a target was chosen.
    pub open spec fn has_target(connection: Connection) -> bool {
        !(connection is Unset)
    }

    /// A supervisor that is about to connect to `connection`. Without a target there is
    /// no session to supervise: that is `None`, and it is final.
    pub fn start(connection: Connection) -> (supervisor: Option<Supervisor>)
        ensures
            supervisor is Some <==> Self::has_target(connection),
            supervisor is Some ==> supervisor->0 == (Supervisor {
                state: SessionState::Connecting,
                connection,
                respawns: 0,
            }),
    {
        match connection {
            Connection::Unset => None,
            _ => Some(Supervisor { state: SessionState::Connecting, connection, respawns: 0 }),
        }
    }

    /// How to open the transport: by TCP or over a serial line, as the target says.
    pub fn connect_plan(&self) -> (plan: Option<ConnectPlan>)
        ensures
            match self.connection {
                Connection::TCP(host, port) => plan == Some(ConnectPlan::Tcp(host, port)),
                Connection::Serial(device) => plan == Some(ConnectPlan::Serial(device)),
                Connection::Unset => plan is None,
            },
    {
        match &self.connection {
            Connection::TCP(host, port) => Some(ConnectPlan::Tcp(host.clone(), *port)),
            Connection::Serial(device) => Some(ConnectPlan::Serial(device.clone())),
            Connection::Unset => None,
        }
    }

    /// Takes note of an event and says what to do next. The target never changes.
    pub fn on_event(&mut self, event: SessionEvent) -> (action: SupervisorAction)
        ensures
            action == action_after(old(self).state, event),
            final(self).state == state_after(old(self).state, event),
            final(self).respawns == respawns_after(old(self).respawns, event),
            final(self).connection == old(self).connection,
    {
        let failed = match event {
            SessionEvent::ConnectFailed => true,
            SessionEvent::TransportFailed => true,
            SessionEvent::TaskEnded => true,
            _ => false,
        };
        if failed {
            self.state = SessionState::Connecting;
            if self.respawns < u64::MAX {
                self.respawns = self.respawns + 1;
            }
            SupervisorAction::Respawn
        } else {
            match event {
                SessionEvent::ConnectSucceeded => {
                    self.state = SessionState::Connected;
                },
                _ => {},
            }
            match self.state {
                SessionState::Connected => SupervisorAction::Poll,
                SessionState::Connecting => SupervisorAction::Wait,
            }
        }
    }
}

/// Lemma: whatever the state, a failure leads to a new session in the connecting state,
/// and thereafter a successful connection leads to polling.
pub proof fn lemma_failure_respawns(state: SessionState, event: SessionEvent)
    requires
        is_failure(event),
    ensures
        action_after(state, event) == SupervisorAction::Respawn,
        state_after(state, event) == SessionState::Connecting,
        action_after(state_after(state, event), SessionEvent::ConnectSucceeded)
            == SupervisorAction::Poll,
        state_after(state_after(state, event), SessionEvent::ConnectSucceeded)
            == SessionState::Connected,
{
}

/// Lemma: a session task that has ended, however it ended, is followed by a new session
/// against the same target.
pub proof fn lemma_ended_task_respawns(state: SessionState, report: TaskReport)
    requires
        report != TaskReport::Alive,
    ensures
        is_failure(event_for(report)),
        action_after(state, event_for(report)) == SupervisorAction::Respawn,
        state_after(state, event_for(report)) == SessionState::Connecting,
{
}

/// What the radio is asked to do.
#[derive(Debug, PartialEq, Eq)]
pub enum RadioCommand {
    /// Send a text to a destination on a channel, and ask for an acknowledgement.
    SendText { text: String, destination: PacketDestination, want_ack: bool, channel: u32 },
    /// Send a packet as it is.
    SendPacket(OutboundPacket),
}

/// What one poll of a connected session does.
#[derive(Debug, PartialEq)]
pub struct PollPlan {
    /// What goes to the foreground loop: the frame that the radio delivered, if any.
    pub to_foreground: Option<IPCMessage>,
    /// What goes to the radio: the command that was waiting, if any and if it is one.
    pub to_radio: Option<RadioCommand>,
    /// Whether what was waiting is no command for the radio.
    pub unknown_command: bool,
    /// How long to sleep before the next poll, in milliseconds.
    pub sleep_ms: u64,
}

/// What is handed to the foreground loop for a frame from the radio.
pub open spec fn forwarded(inbound: Option<RadioFrame>) -> Option<IPCMessage> {
    match inbound {
        Some(frame) => Some(IPCMessage::FromRadio(frame)),
        None => None,
    }
}

/// The command that a message from the foreground loop stands for.
pub open spec fn command_of(outbound: Option<IPCMessage>) -> Option<RadioCommand> {
    match outbound {
        Some(IPCMessage::SendMessage(envelope)) => Some(
            RadioCommand::SendText {
                text: envelope.message,
                destination: envelope.destination,
                want_ack: true,
                channel: envelope.channel,
            },
        ),
        Some(IPCMessage::ToRadio(packet)) => Some(RadioCommand::SendPacket(packet)),
        _ => None,
    }
}

/// Plans one poll: at most one frame goes to the foreground loop and at most one command
/// to the radio, each unchanged, and then the task sleeps for the poll interval.
pub fn poll_step(inbound: Option<RadioFrame>, outbound: Option<IPCMessage>) -> (plan: PollPlan)
    ensures
        plan.to_foreground == forwarded(inbound),
        plan.to_radio == command_of(outbound),
        plan.unknown_command == (outbound is Some && command_of(outbound) is None),
        plan.sleep_ms == POLL_INTERVAL_MS,
{
    let to_foreground = match inbound {
        Some(frame) => Some(IPCMessage::FromRadio(frame)),
        None => None,
    };
    let (to_radio, unknown_command) = match outbound {
        Some(IPCMessage::SendMessage(envelope)) => {
            let MessageEnvelope { message, destination, channel, .. } = envelope;
            (
                Some(
                    RadioCommand::SendText { text: message, destination, want_ack: true, channel },
                ),
                false,
            )
        },
        Some(IPCMessage::ToRadio(packet)) => (Some(RadioCommand::SendPacket(packet)), false),
        Some(_) => (None, true),
        None => (None, false),
    };
    PollPlan { to_foreground, to_radio, unknown_command, sleep_ms: POLL_INTERVAL_MS }
}

} // verus!
