//! What travels between the session task and the foreground loop.

use vstd::prelude::*;
use crate::config::{ConfigBlock, ModuleBlock};
use crate::frame::{Channel, LogRecord, MeshPacket, NodeInfo, Port, QueueStatus};
use crate::tabs::messages::MessageEnvelope;

verus! {

/// One frame from the radio, as far as the dashboard reads it.
#[derive(Debug, PartialEq)]
pub enum RadioFrame {
    /// A packet heard on the mesh.
    Packet(MeshPacket),
    /// The address of the radio itself.
    MyInfo(u32),
    /// The radio's whole record of one node.
    NodeInfo(NodeInfo),
    /// One block of the radio's settings, if the frame carries one.
    Config(Option<ConfigBlock>),
    /// A line of the radio's log.
    LogRecord(LogRecord),
    /// The radio has sent all of its settings.
    ConfigCompleteId(u32),
    /// Whether the radio has restarted.
    Rebooted(bool),
    /// One block of a module's settings, if the frame carries one.
    ModuleConfig(Option<ModuleBlock>),
    /// One slot of the channel table.
    Channel(Channel),
    /// The state of the transmit queue.
    QueueStatus(QueueStatus),
    /// A piece of a file transfer.
    XmodemPacket,
    /// The firmware version of the radio.
    Metadata(String),
    /// A message for the MQTT proxy.
    MqttClientProxyMessage,
    /// A kind of frame that the dashboard does not know.
    Unrecognized,
    /// A frame without content.
    Empty,
}

/// A packet for the radio to send.
#[derive(Debug, Clone, PartialEq, Eq)]
pub struct OutboundPacket {
    pub to: u32,
    pub channel: u32,
    pub want_ack: bool,
    pub via_mqtt: bool,
    pub port: Port,
    pub payload: Vec<u8>,
    pub want_response: bool,
}

/// What the two channels carry.
#[derive(Debug, PartialEq)]
pub enum IPCMessage {
    /// A frame that the radio delivered.
    FromRadio(RadioFrame),
    /// A packet to hand to the radio as it is.
    ToRadio(OutboundPacket),
    /// A text message to send.
    SendMessage(MessageEnvelope),
    /// The session task is about to end.
    ExitingThread,
}

} // verus!
