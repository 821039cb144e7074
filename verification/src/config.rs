//! The device configuration store, put together block by block as the radio reports it.
//!
//! The settings blocks themselves are the protocol library's types. The store never looks
//! inside one: it keeps the block that arrived last, and `None` where none has arrived yet.

use vstd::prelude::*;
use std::collections::HashMap;
use meshtastic::protobufs::config::{
    BluetoothConfig, DeviceConfig, DisplayConfig, LoRaConfig, NetworkConfig, PositionConfig,
    PowerConfig,
};
use meshtastic::protobufs::module_config::{
    AmbientLightingConfig, AudioConfig, CannedMessageConfig, DetectionSensorConfig,
    ExternalNotificationConfig, MqttConfig, NeighborInfoConfig, PaxcounterConfig,
    RangeTestConfig, RemoteHardwareConfig, SerialConfig, StoreForwardConfig, TelemetryConfig,
};
use crate::frame::{Channel, ChannelView};

verus! {
/// The protocol library's `config::DeviceConfig`, the device settings block. Opaque here.
#[verifier::external_type_specification]
#[verifier::external_body]
pub struct ExDeviceConfig(meshtastic::protobufs::config::DeviceConfig);
/// The protocol library's `config::PositionConfig`, the position settings block. Opaque here.
#[verifier::external_type_specification]
#[verifier::external_body]
pub struct ExPositionConfig(meshtastic::protobufs::config::PositionConfig);
/// The protocol library's `config::PowerConfig`, the power settings block. Opaque here.
#[verifier::external_type_specification]
#[verifier::external_body]
pub struct ExPowerConfig(meshtastic::protobufs::config::PowerConfig);
/// The protocol library's `config::NetworkConfig`, the network settings block. Opaque here.
#[verifier::external_type_specification]
#[verifier::external_body]
pub struct ExNetworkConfig(meshtastic::protobufs::config::NetworkConfig);
/// The protocol library's `config::DisplayConfig`, the display settings block. Opaque here.
#[verifier::external_type_specification]
#[verifier::external_body]
pub struct ExDisplayConfig(meshtastic::protobufs::config::DisplayConfig);
/// The protocol library's `config::LoRaConfig`, the radio settings block. Opaque here.
#[verifier::external_type_specification]
#[verifier::external_body]
pub struct ExLoRaConfig(meshtastic::protobufs::config::LoRaConfig);
/// The protocol library's `config::BluetoothConfig`, the Bluetooth settings block. Opaque here.
#[verifier::external_type_specification]
#[verifier::external_body]
pub struct ExBluetoothConfig(meshtastic::protobufs::config::BluetoothConfig);
/// The protocol library's `module_config::MqttConfig`, the settings block of the
/// MQTT module. Opaque here.
#[verifier::external_type_specification]
#[verifier::external_body]
pub struct ExMqttConfig(meshtastic::protobufs::module_config::MqttConfig);
/// The protocol library's `module_config::SerialConfig`, the settings block of the
/// serial module. Opaque here.
#[verifier::external_type_specification]
#[verifier::external_body]
pub struct ExSerialConfig(meshtastic::protobufs::module_config::SerialConfig);
/// The protocol library's `module_config::ExternalNotificationConfig`, the settings block of the
/// external-notification module. Opaque here.
#[verifier::external_type_specification]
#[verifier::external_body]
pub struct ExExternalNotificationConfig(meshtastic::protobufs::module_config::ExternalNotificationConfig);
/// The protocol library's `module_config::StoreForwardConfig`, the settings block of the
/// store-and-forward module. Opaque here.
#[verifier::external_type_specification]
#[verifier::external_body]
pub struct ExStoreForwardConfig(meshtastic::protobufs::module_config::StoreForwardConfig);
/// The protocol library's `module_config::RangeTestConfig`, the settings block of the
/// range-test module. Opaque here.
#[verifier::external_type_specification]
#[verifier::external_body]
pub struct ExRangeTestConfig(meshtastic::protobufs::module_config::RangeTestConfig);
/// The protocol library's `module_config::TelemetryConfig`, the settings block of the
/// telemetry module. Opaque here.
#[verifier::external_type_specification]
#[verifier::external_body]
pub struct ExTelemetryConfig(meshtastic::protobufs::module_config::TelemetryConfig);
/// The protocol library's `module_config::CannedMessageConfig`, the settings block of the
/// canned-message module. Opaque here.
#[verifier::external_type_specification]
#[verifier::external_body]
pub struct ExCannedMessageConfig(meshtastic::protobufs::module_config::CannedMessageConfig);
/// The protocol library's `module_config::AudioConfig`, the settings block of the
/// audio module. Opaque here.
#[verifier::external_type_specification]
#[verifier::external_body]
pub struct ExAudioConfig(meshtastic::protobufs::module_config::AudioConfig);
/// The protocol library's `module_config::RemoteHardwareConfig`, the settings block of the
/// remote-hardware module. Opaque here.
#[verifier::external_type_specification]
#[verifier::external_body]
pub struct ExRemoteHardwareConfig(meshtastic::protobufs::module_config::RemoteHardwareConfig);
/// The protocol library's `module_config::NeighborInfoConfig`, the settings block of the
/// neighbor-info module. Opaque here.
#[verifier::external_type_specification]
#[verifier::external_body]
pub struct ExNeighborInfoConfig(meshtastic::protobufs::module_config::NeighborInfoConfig);
/// The protocol library's `module_config::AmbientLightingConfig`, the settings block of the
/// ambient-lighting module. Opaque here.
#[verifier::external_type_specification]
#[verifier::external_body]
pub struct ExAmbientLightingConfig(meshtastic::protobufs::module_config::AmbientLightingConfig);
/// The protocol library's `module_config::DetectionSensorConfig`, the settings block of the
/// detection-sensor module. Opaque here.
#[verifier::external_type_specification]
#[verifier::external_body]
pub struct ExDetectionSensorConfig(meshtastic::protobufs::module_config::DetectionSensorConfig);
/// The protocol library's `module_config::PaxcounterConfig`, the settings block of the
/// pax-counter module. Opaque here.
#[verifier::external_type_specification]
#[verifier::external_body]
pub struct ExPaxcounterConfig(meshtastic::protobufs::module_config::PaxcounterConfig);
/// One block of the radio's own settings.
#[derive(Debug, PartialEq)]
pub enum ConfigBlock {
    Device(DeviceConfig),
    Position(PositionConfig),
    Power(PowerConfig),
    Network(NetworkConfig),
    Display(DisplayConfig),
    Lora(LoRaConfig),
    Bluetooth(BluetoothConfig),
}

/// One block of a module's settings.
#[derive(Debug, PartialEq)]
pub enum ModuleBlock {
    Mqtt(MqttConfig),
    Serial(SerialConfig),
    ExternalNotification(ExternalNotificationConfig),
    StoreForward(StoreForwardConfig),
    RangeTest(RangeTestConfig),
    Telemetry(TelemetryConfig),
    CannedMessage(CannedMessageConfig),
    Audio(AudioConfig),
    RemoteHardware(RemoteHardwareConfig),
    NeighborInfo(NeighborInfoConfig),
    AmbientLighting(AmbientLightingConfig),
    DetectionSensor(DetectionSensorConfig),
    Paxcounter(PaxcounterConfig),
}

/// The settings of the radio as far as they are known.
#[derive(Debug, PartialEq)]
pub struct DeviceConfiguration {
    pub device: Option<DeviceConfig>,
    pub position: Option<PositionConfig>,
    pub power: Option<PowerConfig>,
    pub network: Option<NetworkConfig>,
    pub display: Option<DisplayConfig>,
    pub lora: Option<LoRaConfig>,
    pub bluetooth: Option<BluetoothConfig>,
    pub mqtt: Option<MqttConfig>,
    pub serial: Option<SerialConfig>,
    pub external_notification: Option<ExternalNotificationConfig>,
    pub store_forward: Option<StoreForwardConfig>,
    pub range_test: Option<RangeTestConfig>,
    pub telemetry: Option<TelemetryConfig>,
    pub canned_message: Option<CannedMessageConfig>,
    pub audio: Option<AudioConfig>,
    pub remote_hardware: Option<RemoteHardwareConfig>,
    pub neighbor_info: Option<NeighborInfoConfig>,
    pub ambient_lighting: Option<AmbientLightingConfig>,
    pub detection_sensor: Option<DetectionSensorConfig>,
    pub paxcounter: Option<PaxcounterConfig>,
    pub channels: HashMap<i32, Channel>,
    pub last_update: u64,
}

/// The mathematical content of a `DeviceConfiguration`.
pub struct ConfigurationView {
    pub device: Option<DeviceConfig>,
    pub position: Option<PositionConfig>,
    pub power: Option<PowerConfig>,
    pub network: Option<NetworkConfig>,
    pub display: Option<DisplayConfig>,
    pub lora: Option<LoRaConfig>,
    pub bluetooth: Option<BluetoothConfig>,
    pub mqtt: Option<MqttConfig>,
    pub serial: Option<SerialConfig>,
    pub external_notification: Option<ExternalNotificationConfig>,
    pub store_forward: Option<StoreForwardConfig>,
    pub range_test: Option<RangeTestConfig>,
    pub telemetry: Option<TelemetryConfig>,
    pub canned_message: Option<CannedMessageConfig>,
    pub audio: Option<AudioConfig>,
    pub remote_hardware: Option<RemoteHardwareConfig>,
    pub neighbor_info: Option<NeighborInfoConfig>,
    pub ambient_lighting: Option<AmbientLightingConfig>,
    pub detection_sensor: Option<DetectionSensorConfig>,
    pub paxcounter: Option<PaxcounterConfig>,
    pub channels: Map<i32, ChannelView>,
    pub last_update: u64,
}

/// The contents of a channel table.
pub open spec fn channels_view(channels: Map<i32, Channel>) -> Map<i32, ChannelView> {
    channels.map_values(|c: Channel| c@)
}

impl View for DeviceConfiguration {
    type V = ConfigurationView;

    open spec fn view(&self) -> ConfigurationView {
        ConfigurationView {
            device: self.device,
            position: self.position,
            power: self.power,
            network: self.network,
            display: self.display,
            lora: self.lora,
            bluetooth: self.bluetooth,
            mqtt: self.mqtt,
            serial: self.serial,
            external_notification: self.external_notification,
            store_forward: self.store_forward,
            range_test: self.range_test,
            telemetry: self.telemetry,
            canned_message: self.canned_message,
            audio: self.audio,
            remote_hardware: self.remote_hardware,
            neighbor_info: self.neighbor_info,
            ambient_lighting: self.ambient_lighting,
            detection_sensor: self.detection_sensor,
            paxcounter: self.paxcounter,
            channels: channels_view(self.channels@),
            last_update: self.last_update,
        }
    }
}

impl ConfigurationView {
    /// The store in which nothing has arrived yet.
    pub open spec fn empty() -> ConfigurationView {
        ConfigurationView {
            device: None,
            position: None,
            power: None,
            network: None,
            display: None,
            lora: None,
            bluetooth: None,
            mqtt: None,
            serial: None,
            external_notification: None,
            store_forward: None,
            range_test: None,
            telemetry: None,
            canned_message: None,
            audio: None,
            remote_hardware: None,
            neighbor_info: None,
            ambient_lighting: None,
            detection_sensor: None,
            paxcounter: None,
            channels: Map::empty(),
            last_update: 0,
        }
    }

    /// The store after a block of the radio's settings arrived at `now`: that block takes
    /// the place of the one of its kind, and nothing else changes but the time.
    pub open spec fn with_config(self, block: ConfigBlock, now: u64) -> ConfigurationView {
        match block {
            ConfigBlock::Device(b) => ConfigurationView {
                device: Some(b),
                last_update: now,
                ..self
            },
            ConfigBlock::Position(b) => ConfigurationView {
                position: Some(b),
                last_update: now,
                ..self
            },
            ConfigBlock::Power(b) => ConfigurationView {
                power: Some(b),
                last_update: now,
                ..self
            },
            ConfigBlock::Network(b) => ConfigurationView {
                network: Some(b),
                last_update: now,
                ..self
            },
            ConfigBlock::Display(b) => ConfigurationView {
                display: Some(b),
                last_update: now,
                ..self
            },
            ConfigBlock::Lora(b) => ConfigurationView {
                lora: Some(b),
                last_update: now,
                ..self
            },
            ConfigBlock::Bluetooth(b) => ConfigurationView {
                bluetooth: Some(b),
                last_update: now,
                ..self
            },
        }
    }

    /// The store after a block of a module's settings arrived at `now`.
    pub open spec fn with_module(self, block: ModuleBlock, now: u64) -> ConfigurationView {
        match block {
            ModuleBlock::Mqtt(b) => ConfigurationView {
                mqtt: Some(b),
                last_update: now,
                ..self
            },
            ModuleBlock::Serial(b) => ConfigurationView {
                serial: Some(b),
                last_update: now,
                ..self
            },
            ModuleBlock::ExternalNotification(b) => ConfigurationView {
                external_notification: Some(b),
                last_update: now,
                ..self
            },
            ModuleBlock::StoreForward(b) => ConfigurationView {
                store_forward: Some(b),
                last_update: now,
                ..self
            },
            ModuleBlock::RangeTest(b) => ConfigurationView {
                range_test: Some(b),
                last_update: now,
                ..self
            },
            ModuleBlock::Telemetry(b) => ConfigurationView {
                telemetry: Some(b),
                last_update: now,
                ..self
            },
            ModuleBlock::CannedMessage(b) => ConfigurationView {
                canned_message: Some(b),
                last_update: now,
                ..self
            },
            ModuleBlock::Audio(b) => ConfigurationView {
                audio: Some(b),
                last_update: now,
                ..self
            },
            ModuleBlock::RemoteHardware(b) => ConfigurationView {
                remote_hardware: Some(b),
                last_update: now,
                ..self
            },
            ModuleBlock::NeighborInfo(b) => ConfigurationView {
                neighbor_info: Some(b),
                last_update: now,
                ..self
            },
            ModuleBlock::AmbientLighting(b) => ConfigurationView {
                ambient_lighting: Some(b),
                last_update: now,
                ..self
            },
            ModuleBlock::DetectionSensor(b) => ConfigurationView {
                detection_sensor: Some(b),
                last_update: now,
                ..self
            },
            ModuleBlock::Paxcounter(b) => ConfigurationView {
                paxcounter: Some(b),
                last_update: now,
                ..self
            },
        }
    }

    /// The store after a channel arrived at `now`: it takes the slot of its index.
    pub open spec fn with_channel(self, channel: ChannelView, now: u64) -> ConfigurationView {
        ConfigurationView {
            channels: self.channels.insert(channel.index, channel),
            last_update: now,
            ..self
        }
    }
}

/// What a shared store holds, where `None` is a store that nothing was merged into yet.
pub open spec fn store_view(store: Option<DeviceConfiguration>) -> ConfigurationView {
    match store {
        Some(cfg) => cfg@,
        None => ConfigurationView::empty(),
    }
}

impl DeviceConfiguration {
    /// The store in which nothing has arrived yet.
    pub fn new() -> (cfg: DeviceConfiguration)
        ensures
            cfg@ == ConfigurationView::empty(),
    {
        let cfg = DeviceConfiguration {
            device: None,
            position: None,
            power: None,
            network: None,
            display: None,
            lora: None,
            bluetooth: None,
            mqtt: None,
            serial: None,
            external_notification: None,
            store_forward: None,
            range_test: None,
            telemetry: None,
            canned_message: None,
            audio: None,
            remote_hardware: None,
            neighbor_info: None,
            ambient_lighting: None,
            detection_sensor: None,
            paxcounter: None,
            channels: HashMap::new(),
            last_update: 0,
        };
        proof {
            assert(cfg@.channels =~= Map::empty());
        }
        cfg
    }

    /// Puts a block of the radio's settings in the place of the one of its kind.
    pub fn merge_config(&mut self, block: ConfigBlock, now: u64)
        ensures
            final(self)@ == old(self)@.with_config(block, now),
    {
        match block {
            ConfigBlock::Device(b) => { self.device = Some(b); },
            ConfigBlock::Position(b) => { self.position = Some(b); },
            ConfigBlock::Power(b) => { self.power = Some(b); },
            ConfigBlock::Network(b) => { self.network = Some(b); },
            ConfigBlock::Display(b) => { self.display = Some(b); },
            ConfigBlock::Lora(b) => { self.lora = Some(b); },
            ConfigBlock::Bluetooth(b) => { self.bluetooth = Some(b); },
        }
        self.last_update = now;
    }

    /// Puts a block of a module's settings in the place of the one of its kind.
    pub fn merge_module(&mut self, block: ModuleBlock, now: u64)
        ensures
            final(self)@ == old(self)@.with_module(block, now),
    {
        match block {
            ModuleBlock::Mqtt(b) => { self.mqtt = Some(b); },
            ModuleBlock::Serial(b) => { self.serial = Some(b); },
            ModuleBlock::ExternalNotification(b) => { self.external_notification = Some(b); },
            ModuleBlock::StoreForward(b) => { self.store_forward = Some(b); },
            ModuleBlock::RangeTest(b) => { self.range_test = Some(b); },
            ModuleBlock::Telemetry(b) => { self.telemetry = Some(b); },
            ModuleBlock::CannedMessage(b) => { self.canned_message = Some(b); },
            ModuleBlock::Audio(b) => { self.audio = Some(b); },
            ModuleBlock::RemoteHardware(b) => { self.remote_hardware = Some(b); },
            ModuleBlock::NeighborInfo(b) => { self.neighbor_info = Some(b); },
            ModuleBlock::AmbientLighting(b) => { self.ambient_lighting = Some(b); },
            ModuleBlock::DetectionSensor(b) => { self.detection_sensor = Some(b); },
            ModuleBlock::Paxcounter(b) => { self.paxcounter = Some(b); },
        }
        self.last_update = now;
    }

    /// Puts a channel in the slot of its index.
    pub fn merge_channel(&mut self, channel: Channel, now: u64)
        ensures
            final(self)@ == old(self)@.with_channel(channel@, now),
    {
        let ghost index = channel.index;
        self.channels.insert(channel.index, channel);
        self.last_update = now;
        proof {
            assert(channels_view(self.channels@) =~= channels_view(old(self).channels@).insert(
                index,
                channel@,
            ));
        }
    }
}

/// One thing to merge into the configuration store.
#[derive(Debug, PartialEq)]
pub enum StoreUpdate {
    /// A block of the radio's settings.
    Config(ConfigBlock),
    /// A block of a module's settings.
    Module(ModuleBlock),
    /// A channel, for the slot of its index.
    Channel(Channel),
}

impl ConfigurationView {
    /// The store after `update` was merged into it at `now`.
    pub open spec fn merged(self, update: StoreUpdate, now: u64) -> ConfigurationView {
        match update {
            StoreUpdate::Config(block) => self.with_config(block, now),
            StoreUpdate::Module(block) => self.with_module(block, now),
            StoreUpdate::Channel(channel) => self.with_channel(channel@, now),
        }
    }
}

/// Merges an update into the shared store, which is made at its first use: that of a store
/// in which nothing has arrived yet.
pub fn merge_block(store: &mut Option<DeviceConfiguration>, update: StoreUpdate, now: u64)
    ensures
        *final(store) is Some,
        store_view(*final(store)) == store_view(*old(store)).merged(update, now),
{
    let mut config = match store.take() {
        Some(config) => config,
        None => DeviceConfiguration::new(),
    };
    match update {
        StoreUpdate::Config(block) => config.merge_config(block, now),
        StoreUpdate::Module(block) => config.merge_module(block, now),
        StoreUpdate::Channel(channel) => config.merge_channel(channel, now),
    }
    *store = Some(config);
}

/// Lemma: merging the same update twice leaves the store as merging it once does, but for
/// the time of the last update, which is that of the second merge.
pub proof fn lemma_merge_idempotent(
    store: ConfigurationView,
    update: StoreUpdate,
    first: u64,
    second: u64,
)
    ensures
        store.merged(update, first).merged(update, second) == (ConfigurationView {
            last_update: second,
            ..store.merged(update, first)
        }),
{
    match update {
        StoreUpdate::Config(block) => lemma_merge_config_idempotent(store, block, first, second),
        StoreUpdate::Module(block) => lemma_merge_module_idempotent(store, block, first, second),
        StoreUpdate::Channel(channel) => lemma_merge_channel_idempotent(
            store,
            channel@,
            first,
            second,
        ),
    }
}

/// Lemma: merging an update changes the part of the store that it names and the time of
/// the last update, and nothing else: a block leaves the channel table as it is, and a
/// channel leaves every block and every other slot as it is.
pub proof fn lemma_merge_is_local(store: ConfigurationView, update: StoreUpdate, now: u64)
    ensures
        store.merged(update, now).last_update == now,
        !(update is Channel) ==> store.merged(update, now).channels == store.channels,
        update matches StoreUpdate::Channel(channel) ==> (ConfigurationView {
            channels: store.channels,
            last_update: store.last_update,
            ..store.merged(update, now)
        }) == store && forall|slot: i32|
            slot != channel.index ==> (store.merged(update, now).channels.contains_key(slot)
                <==> store.channels.contains_key(slot)) && store.merged(
                update,
                now,
            ).channels[slot] == store.channels[slot],
{
}

/// Lemma: merging the same block of the radio's settings twice leaves the store as merging
/// it once does, but for the time of the last update, which is that of the second merge.
pub proof fn lemma_merge_config_idempotent(
    store: ConfigurationView,
    block: ConfigBlock,
    first: u64,
    second: u64,
)
    ensures
        store.with_config(block, first).with_config(block, second) == (ConfigurationView {
            last_update: second,
            ..store.with_config(block, first)
        }),
{
}

/// Lemma: merging the same block of a module's settings twice leaves the store as merging
/// it once does, but for the time of the last update.
pub proof fn lemma_merge_module_idempotent(
    store: ConfigurationView,
    block: ModuleBlock,
    first: u64,
    second: u64,
)
    ensures
        store.with_module(block, first).with_module(block, second) == (ConfigurationView {
            last_update: second,
            ..store.with_module(block, first)
        }),
{
}

/// Lemma: merging the same channel twice leaves the store as merging it once does, but
/// for the time of the last update.
pub proof fn lemma_merge_channel_idempotent(
    store: ConfigurationView,
    channel: ChannelView,
    first: u64,
    second: u64,
)
    ensures
        store.with_channel(channel, first).with_channel(channel, second) == (ConfigurationView {
            last_update: second,
            ..store.with_channel(channel, first)
        }),
{
    assert(store.channels.insert(channel.index, channel).insert(channel.index, channel)
        =~= store.channels.insert(channel.index, channel));
}

} // verus!
