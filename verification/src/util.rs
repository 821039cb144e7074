//! Small services: the clock, the lookup of a channel, and the messages that ask the radio
//! to send something.

use vstd::prelude::*;
use crate::codec::epoch_seconds;
use crate::config::DeviceConfiguration;
use crate::frame::{Channel, PacketDestination};
use crate::ipc::IPCMessage;
use crate::tabs::messages::MessageEnvelope;
use crate::tabs::nodes::{is_traceroute_request, traceroute_request};

verus! {

/// Seconds since the Unix epoch by the system clock; 0 where the clock stands before it.
pub fn get_secs() -> (secs: u64) {
    seconds_or_zero(epoch_seconds())
}

/// The time that a reading of the clock stands for: the seconds it gives, and 0 where
/// the clock gave none because it stands before the epoch.
pub open spec fn spec_seconds_or_zero(reading: Option<u64>) -> u64 {
    match reading {
        Some(secs) => secs,
        None => 0,
    }
}

#[verifier::when_used_as_spec(spec_seconds_or_zero)]
pub fn seconds_or_zero(reading: Option<u64>) -> (secs: u64)
    ensures
        secs == spec_seconds_or_zero(reading),
{
    match reading {
        Some(secs) => secs,
        None => 0,
    }
}

/// The slot of the channel table that a channel number names: the number read as a signed
/// number of 32 bits.
pub open spec fn slot_of(id: u32) -> i32 {
    if id <= i32::MAX {
        id as i32
    } else {
        (id - 0x1_0000_0000) as i32
    }
}

/// Computes `slot_of`.
pub fn channel_slot(id: u32) -> (slot: i32)
    ensures
        slot == slot_of(id),
{
    if id <= 0x7fff_ffff {
        id as i32
    } else {
        let wide = id as i64;
        (wide - 0x1_0000_0000) as i32
    }
}

/// A copy of the channel under number `id`, once the configuration store holds one there.
pub fn get_channel_from_id(store: &Option<DeviceConfiguration>, id: u32) -> (channel: Option<
    Channel,
>)
    ensures
        channel is Some <==> *store is Some && store->0@.channels.contains_key(slot_of(id)),
        channel is Some ==> channel->0@ == store->0@.channels[slot_of(id)],
{
    match store {
        Some(config) => match config.channels.get(&channel_slot(id)) {
            Some(channel) => Some(channel.duplicate()),
            None => None,
        },
        None => None,
    }
}

/// Whether `command` asks the radio to send `text` to `destination` on `channel`.
pub open spec fn is_send_text(
    command: IPCMessage,
    channel: u32,
    destination: PacketDestination,
    text: String,
) -> bool {
    &&& command is SendMessage
    &&& command->SendMessage_0 == (MessageEnvelope {
        timestamp: 0,
        source: None,
        destination,
        channel,
        message: text,
        rx_rssi: 0,
        rx_snr_bits: 0,
    })
}

/// The command that asks the radio to send a text.
pub fn send_text(channel: u32, destination: PacketDestination, text: String) -> (command:
    IPCMessage)
    ensures
        is_send_text(command, channel, destination, text),
{
    IPCMessage::SendMessage(
        MessageEnvelope {
            timestamp: 0,
            source: None,
            destination,
            channel,
            message: text,
            rx_rssi: 0,
            rx_snr_bits: 0,
        },
    )
}

/// The command that asks the radio to find the route to the node `destination`.
pub fn request_traceroute(destination: u32) -> (command: IPCMessage)
    ensures
        command is ToRadio,
        is_traceroute_request(command->ToRadio_0, destination),
{
    IPCMessage::ToRadio(traceroute_request(destination))
}

} // verus!
