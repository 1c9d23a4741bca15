//! Configuration the protocol engine reads, and the transmit requests it emits.
use vstd::prelude::*;

use crate::mic::Aes128Key;

verus! {

/// A LoRa data rate: spreading factor and bandwidth in Hz.
#[derive(Clone, Copy, PartialEq, Eq, Structural, Debug)]
pub struct DataRate {
    pub spreading_factor: u32,
    pub bandwidth: u32,
}

/// Mesh settings, read-only once the process has started.
#[derive(Clone, Debug, PartialEq, Eq)]
pub struct MeshConfig {
    /// Whether this node is the Border Gateway.
    pub border_gateway: bool,
    /// Heartbeat interval in seconds; `Some(0)` disables heartbeats, `None`
    /// means no interval was configured.
    pub heartbeat_interval: Option<u64>,
    /// The key shared by the whole mesh.
    pub signing_key: Aes128Key,
    /// Channels (Hz) used for relay-to-relay transmissions.
    pub frequencies: Vec<u32>,
    /// Data rate used for relay-to-relay transmissions.
    pub data_rate: DataRate,
    /// Transmit power (dBm) used for relay-to-relay transmissions.
    pub tx_power: i32,
    /// Largest number of entries a relay path may hold.
    pub max_hop_count: u8,
    /// The region's data rates; the position of an entry is its index.
    pub data_rates: Vec<DataRate>,
    /// The region's transmit powers (dBm); the position of an entry is its index.
    pub tx_power_table: Vec<i32>,
}

/// LoRa modulation of a transmission.
#[derive(Clone, Copy, PartialEq, Eq, Structural, Debug)]
pub struct LoraModulation {
    pub bandwidth: u32,
    pub spreading_factor: u32,
    pub polarization_inversion: bool,
}

/// When a transmission goes out.
#[derive(Clone, Copy, PartialEq, Eq, Structural, Debug)]
pub enum Timing {
    Immediately,
    /// This many seconds after the uplink it answers.
    Delay(u32),
}

/// Radio parameters of a transmission.
#[derive(Clone, Copy, PartialEq, Eq, Structural, Debug)]
pub struct TxInfo {
    pub frequency: u32,
    pub power: i32,
    pub modulation: LoraModulation,
    pub timing: Timing,
}

/// A transmit request handed to the radio backend.
#[derive(Clone, Debug, PartialEq, Eq)]
pub struct DownlinkFrame {
    pub downlink_id: u32,
    pub phy_payload: Vec<u8>,
    pub tx_info: TxInfo,
}

/// A downlink for an end device, as the network server sends it to the Border
/// Gateway. The context ends with the relay id (4 bytes) and uplink id
/// (2 bytes, big-endian) of the uplink it answers.
#[derive(Clone, Debug, PartialEq, Eq)]
pub struct DownlinkRequest {
    pub downlink_id: u32,
    pub phy_payload: Vec<u8>,
    pub tx_info: TxInfo,
    pub context: Vec<u8>,
}

/// Modulation for relay-to-relay transmissions.
pub open spec fn mesh_modulation_spec(conf: MeshConfig) -> LoraModulation {
    LoraModulation {
        bandwidth: conf.data_rate.bandwidth,
        spreading_factor: conf.data_rate.spreading_factor,
        polarization_inversion: false,
    }
}

/// Radio parameters of a relay-to-relay transmission on `frequency`.
pub open spec fn mesh_tx_info(conf: MeshConfig, frequency: u32) -> TxInfo {
    TxInfo {
        frequency,
        power: conf.tx_power,
        modulation: mesh_modulation_spec(conf),
        timing: Timing::Immediately,
    }
}

impl MeshConfig {
    /// Radio parameters of a relay-to-relay transmission on `frequency`.
    pub fn mesh_tx_info(&self, frequency: u32) -> (r: TxInfo)
        ensures
            r == mesh_tx_info(*self, frequency),
    {
        TxInfo {
            frequency,
            power: self.tx_power,
            modulation: LoraModulation {
                bandwidth: self.data_rate.bandwidth,
                spreading_factor: self.data_rate.spreading_factor,
                polarization_inversion: false,
            },
            timing: Timing::Immediately,
        }
    }
}

} // verus!
