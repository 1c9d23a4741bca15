//! Heartbeats: periodic liveness beacons, with a role-aware interval.
use vstd::prelude::*;

use crate::config::{DownlinkFrame, MeshConfig, mesh_tx_info};
use crate::mesh::{MeshError, get_mesh_frequency, signed_wire};
use crate::mic::Aes128Key;
use crate::packets::{
    BORDER_RELAY_ID, HeartbeatModel, HeartbeatPayload, MHDR, MeshPacket, PacketModel, Payload,
    PayloadModel, PayloadType, RelayId, mic_valid, wire_bytes,
};

verus! {

/// Interval (seconds) at which the Border Gateway sends heartbeats.
pub const BORDER_HEARTBEAT_INTERVAL: u64 = 60;

/// The interval heartbeats actually run at: zero when disabled. The Border
/// Gateway uses its fixed interval unless heartbeats are explicitly disabled;
/// a Relay Gateway uses the configured interval, and none when none is set.
pub open spec fn effective_interval_spec(border_gateway: bool, configured: Option<u64>) -> u64 {
    if border_gateway {
        if configured == Some(0u64) {
            0
        } else {
            BORDER_HEARTBEAT_INTERVAL
        }
    } else {
        match configured {
            Some(n) => n,
            None => 0,
        }
    }
}

/// The interval heartbeats run at for this configuration; zero when disabled.
pub fn effective_heartbeat_interval(conf: &MeshConfig) -> (r: u64)
    ensures
        r == effective_interval_spec(conf.border_gateway, conf.heartbeat_interval),
{
    if conf.border_gateway {
        match conf.heartbeat_interval {
            Some(0) => 0,
            _ => BORDER_HEARTBEAT_INTERVAL,
        }
    } else {
        match conf.heartbeat_interval {
            Some(n) => n,
            None => 0,
        }
    }
}

/// Decides whether the heartbeat loop starts: the interval it runs at, or
/// `None` when heartbeats are disabled and no loop is started.
pub fn setup(conf: &MeshConfig) -> (r: Option<u64>)
    ensures
        r == (if effective_interval_spec(conf.border_gateway, conf.heartbeat_interval) == 0 {
            None
        } else {
            Some(effective_interval_spec(conf.border_gateway, conf.heartbeat_interval))
        }),
{
    let interval = effective_heartbeat_interval(conf);
    if interval == 0 {
        None
    } else {
        Some(interval)
    }
}

/// A configuration with a zero interval starts no heartbeat loop.
pub proof fn lemma_disabled_starts_nothing(border_gateway: bool)
    ensures
        effective_interval_spec(border_gateway, Some(0u64)) == 0,
{
}

/// The Border Gateway sends heartbeats without a configured interval, at its
/// fixed interval.
pub proof fn lemma_border_fallback_interval(configured: Option<u64>)
    requires
        configured != Some(0u64),
    ensures
        effective_interval_spec(true, configured) == BORDER_HEARTBEAT_INTERVAL,
        BORDER_HEARTBEAT_INTERVAL > 0,
{
}

/// This node's identity: the reserved id on the Border Gateway; otherwise the
/// id the radio reported, which must be present and not the reserved one.
pub open spec fn own_relay_id_spec(border_gateway: bool, reported: Option<RelayId>) -> Option<
    RelayId,
> {
    if border_gateway {
        Some(BORDER_RELAY_ID)
    } else {
        match reported {
            Some(id) => if id == BORDER_RELAY_ID {
                None
            } else {
                Some(id)
            },
            None => None,
        }
    }
}

/// This node's identity, from its role and the id its radio reported.
pub fn own_relay_id(border_gateway: bool, reported: Option<RelayId>) -> (r: Result<
    RelayId,
    MeshError,
>)
    ensures
        r is Ok <==> own_relay_id_spec(border_gateway, reported) is Some,
        r is Ok ==> Some(r->Ok_0) == own_relay_id_spec(border_gateway, reported),
        r is Err ==> r->Err_0 == MeshError::IdentityUnavailable,
{
    if border_gateway {
        return Ok(BORDER_RELAY_ID);
    }
    match reported {
        Some(id) => {
            assert(BORDER_RELAY_ID[0] == 0 && BORDER_RELAY_ID[1] == 0 && BORDER_RELAY_ID[2] == 0
                && BORDER_RELAY_ID[3] == 0);
            if id[0] == 0 && id[1] == 0 && id[2] == 0 && id[3] == 0 {
                assert(id@ =~= BORDER_RELAY_ID@);
                assert(id == BORDER_RELAY_ID);
                Err(MeshError::IdentityUnavailable)
            } else {
                Ok(id)
            }
        },
        None => Err(MeshError::IdentityUnavailable),
    }
}

/// The unsigned heartbeat a node with id `relay_id` sends at `timestamp`.
pub open spec fn heartbeat_model(relay_id: RelayId, timestamp: u32) -> PacketModel {
    PacketModel {
        mhdr: MHDR { payload_type: PayloadType::Heartbeat, hop_count: 1 },
        payload: PayloadModel::Heartbeat(
            HeartbeatModel { timestamp, relay_id, relay_path: Seq::empty() },
        ),
        mic: None,
    }
}

/// Builds and signs the heartbeat of node `relay_id` at `timestamp`.
pub fn new_heartbeat(relay_id: RelayId, timestamp: u32, key: &Aes128Key) -> (r: MeshPacket)
    ensures
        r@ == heartbeat_model(relay_id, timestamp).with_mic(r@.mic),
        r@.wf(),
        mic_valid(r@, *key),
{
    let mut packet = MeshPacket {
        mhdr: MHDR { payload_type: PayloadType::Heartbeat, hop_count: 1 },
        payload: Payload::Heartbeat(HeartbeatPayload { timestamp, relay_id, relay_path: Vec::new() }),
        mic: None,
    };
    assert(packet@.payload->Heartbeat_0.relay_path =~= Seq::<RelayId>::empty());
    let ghost before = packet@;
    let _ = packet.set_mic(key);
    proof {
        crate::packets::lemma_mic_round_trip(before, *key, packet.mic.unwrap());
    }
    packet
}

/// Whether `frame` carries a signed heartbeat of node `relay_id` at
/// `timestamp` on a mesh frequency of `conf`.
pub open spec fn is_heartbeat_frame(
    conf: MeshConfig,
    frame: DownlinkFrame,
    relay_id: RelayId,
    timestamp: u32,
) -> bool {
    &&& frame.phy_payload@ == signed_wire(heartbeat_model(relay_id, timestamp), conf.signing_key)
    &&& frame.phy_payload@.len() == crate::packets::signed_bytes(
        heartbeat_model(relay_id, timestamp),
    ).len() + 4
    &&& conf.frequencies@.contains(frame.tx_info.frequency)
    &&& frame.tx_info == mesh_tx_info(conf, frame.tx_info.frequency)
}

/// One heartbeat cycle: the transmit request announcing this node at
/// `timestamp`, given the id its radio reported. Fails when the node's
/// identity is unavailable or no mesh frequency is configured.
pub fn report_heartbeat(conf: &MeshConfig, reported: Option<RelayId>, timestamp: u32) -> (r:
    Result<DownlinkFrame, MeshError>)
    ensures
        r is Ok <==> own_relay_id_spec(conf.border_gateway, reported) is Some
            && conf.frequencies@.len() > 0,
        r is Err ==> (if own_relay_id_spec(conf.border_gateway, reported) is None {
            r->Err_0 == MeshError::IdentityUnavailable
        } else {
            r->Err_0 == MeshError::NoMeshFrequency
        }),
        r is Ok ==> is_heartbeat_frame(
            *conf,
            r->Ok_0,
            own_relay_id_spec(conf.border_gateway, reported).unwrap(),
            timestamp,
        ),
{
    let relay_id = own_relay_id(conf.border_gateway, reported)?;
    let packet = new_heartbeat(relay_id, timestamp, &conf.signing_key);
    let phy_payload = match packet.to_vec() {
        Ok(b) => b,
        Err(e) => return Err(MeshError::from_packet_error(e)),
    };
    let frequency = get_mesh_frequency(conf)?;
    let downlink_id: u32 = rand::random::<u32>();
    let frame = DownlinkFrame { downlink_id, phy_payload, tx_info: conf.mesh_tx_info(frequency) };
    assert(frame.phy_payload@ =~= crate::packets::wire_bytes(packet@));
    assert(frame.phy_payload@ =~= signed_wire(heartbeat_model(relay_id, timestamp), conf.signing_key));
    Ok(frame)
}

/// A heartbeat, once decoded, has hop count one and an empty relay path.
pub proof fn lemma_heartbeat_shape(
    conf: MeshConfig,
    frame: DownlinkFrame,
    relay_id: RelayId,
    timestamp: u32,
    decoded: PacketModel,
)
    requires
        is_heartbeat_frame(conf, frame, relay_id, timestamp),
        decoded.wf(),
        wire_bytes(decoded) == frame.phy_payload@,
    ensures
        decoded.mhdr.hop_count == 1,
        decoded.payload is Heartbeat,
        decoded.payload->Heartbeat_0.relay_path.len() == 0,
        decoded.payload->Heartbeat_0.relay_id == relay_id,
        decoded.payload->Heartbeat_0.timestamp == timestamp,
        mic_valid(decoded, conf.signing_key),
{
    let h = heartbeat_model(relay_id, timestamp);
    assert(h.payload->Heartbeat_0.relay_path.len() == 0);
    crate::mesh::lemma_signed_wire_decodes(h, conf.signing_key, decoded);
}

/// On the Border Gateway every heartbeat carries the reserved relay id.
pub proof fn lemma_border_identity(
    conf: MeshConfig,
    reported: Option<RelayId>,
    frame: DownlinkFrame,
    relay_id: RelayId,
    timestamp: u32,
    decoded: PacketModel,
)
    requires
        conf.border_gateway,
        Some(relay_id) == own_relay_id_spec(conf.border_gateway, reported),
        is_heartbeat_frame(conf, frame, relay_id, timestamp),
        decoded.wf(),
        wire_bytes(decoded) == frame.phy_payload@,
    ensures
        decoded.payload->Heartbeat_0.relay_id == BORDER_RELAY_ID,
{
    lemma_heartbeat_shape(conf, frame, relay_id, timestamp, decoded);
}

} // verus!
