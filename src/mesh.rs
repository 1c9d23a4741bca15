//! Forwarding policy: mesh frequency selection and downlink encapsulation.
use vstd::prelude::*;

use crate::config::{DataRate, DownlinkFrame, DownlinkRequest, MeshConfig, Timing, mesh_tx_info};
use crate::config::{LoraModulation, TxInfo};
use crate::packets::{
    DownlinkMetadata, DownlinkModel, DownlinkPayload, HeartbeatPayload, MHDR,
    MeshPacket, PacketError, PacketModel, Payload, PayloadModel, PayloadType, RelayId,
    UplinkModel, UplinkPayload, expected_mic, mic_valid, no_packet_encodes, signed_bytes,
    wire_bytes,
};
use crate::relay_path::{PathOverflow, append_hop};

verus! {

/// Relies on `rand::random`: a value drawn from the thread-local generator;
/// nothing is promised of it.
pub assume_specification<T>[ rand::random::<T> ]() -> (r: T)
    where
        rand::distributions::Standard: rand::distributions::Distribution<T>,
;


/// Everything that can make the engine drop a packet or skip a cycle.
#[derive(Clone, Copy, PartialEq, Eq, Structural, Debug)]
pub enum MeshError {
    /// Packet codec failure.
    Packet(PacketError),
    /// The MIC does not match the packet.
    AuthenticationFailure,
    /// The relay path, or the hop count, is at its bound.
    PathOverflow,
    /// This node's relay id could not be determined.
    IdentityUnavailable,
    /// No mesh frequency is configured.
    NoMeshFrequency,
    /// The modulation is not one of the region's data rates.
    UnknownDataRate,
    /// The transmit power is not in the region's power table.
    UnsupportedTxPower,
    /// The downlink context does not carry a relay id and uplink id.
    InvalidContext,
    /// The downlink timing cannot be carried through the mesh.
    UnsupportedTiming,
}

impl MeshError {
    pub fn from_packet_error(e: PacketError) -> (r: MeshError)
        ensures
            r == MeshError::Packet(e),
    {
        MeshError::Packet(e)
    }

    pub fn from_path_overflow(e: PathOverflow) -> (r: MeshError)
        ensures
            r == MeshError::PathOverflow,
    {
        MeshError::PathOverflow
    }
}

/// Wire bytes of `m` signed with `key`: header, payload, then the MIC.
pub open spec fn signed_wire(m: PacketModel, key: crate::mic::Aes128Key) -> Seq<u8> {
    signed_bytes(m) + expected_mic(m, key)
}

/// The mesh frequency picked by the draw `r`.
pub open spec fn mesh_frequency_at_spec(freqs: Seq<u32>, r: u32) -> u32 {
    freqs[r as int % freqs.len() as int]
}

/// Picks one of the configured mesh frequencies by the draw `r`.
pub fn mesh_frequency_at(freqs: &Vec<u32>, r: u32) -> (f: Result<u32, MeshError>)
    ensures
        f is Err <==> freqs@.len() == 0,
        f is Err ==> f->Err_0 == MeshError::NoMeshFrequency,
        f is Ok ==> f->Ok_0 == mesh_frequency_at_spec(freqs@, r),
        f is Ok ==> freqs@.contains(f->Ok_0),
{
    let n = freqs.len();
    if n == 0 {
        return Err(MeshError::NoMeshFrequency);
    }
    let i: usize = (r as usize) % n;
    Ok(freqs[i])
}

/// Picks a mesh frequency at random among the configured ones.
pub fn get_mesh_frequency(conf: &MeshConfig) -> (f: Result<u32, MeshError>)
    ensures
        f is Err <==> conf.frequencies@.len() == 0,
        f is Err ==> f->Err_0 == MeshError::NoMeshFrequency,
        f is Ok ==> conf.frequencies@.contains(f->Ok_0),
{
    let r: u32 = rand::random::<u32>();
    mesh_frequency_at(&conf.frequencies, r)
}

/// `i` is the first position of `x` in `s`.
pub open spec fn is_first_index<T>(s: Seq<T>, x: T, i: int) -> bool {
    &&& 0 <= i < s.len()
    &&& s[i] == x
    &&& forall|j: int| 0 <= j < i ==> s[j] != x
}

/// The first position of `x` in `s`, where `s` holds it.
pub open spec fn first_index<T>(s: Seq<T>, x: T) -> int {
    choose|i: int| is_first_index(s, x, i)
}

proof fn lemma_first_index<T>(s: Seq<T>, x: T, i: int)
    requires
        is_first_index(s, x, i),
    ensures
        first_index(s, x) == i,
{
    let k = first_index(s, x);
    assert(is_first_index(s, x, k));
    if k < i {
        assert(s[k] != x);
    } else if i < k {
        assert(s[i] != x);
    }
}

fn find_data_rate(table: &Vec<DataRate>, x: DataRate) -> (r: Option<usize>)
    ensures
        r is Some ==> is_first_index(table@, x, r->Some_0 as int),
        r is None ==> !table@.contains(x),
{
    let mut i: usize = 0;
    while i < table.len()
        invariant
            i <= table@.len(),
            forall|j: int| 0 <= j < i ==> table@[j] != x,
        decreases table@.len() - i,
    {
        if table[i] == x {
            return Some(i);
        }
        i = i + 1;
    }
    None
}

fn find_tx_power(table: &Vec<i32>, x: i32) -> (r: Option<usize>)
    ensures
        r is Some ==> is_first_index(table@, x, r->Some_0 as int),
        r is None ==> !table@.contains(x),
{
    let mut i: usize = 0;
    while i < table.len()
        invariant
            i <= table@.len(),
            forall|j: int| 0 <= j < i ==> table@[j] != x,
        decreases table@.len() - i,
    {
        if table[i] == x {
            return Some(i);
        }
        i = i + 1;
    }
    None
}

/// The data rate a modulation stands for.
pub open spec fn data_rate_of(m: crate::config::LoraModulation) -> DataRate {
    DataRate { spreading_factor: m.spreading_factor, bandwidth: m.bandwidth }
}

/// The position of `x` in `s` fits the one-byte field it is carried in.
pub open spec fn has_byte_index<T>(s: Seq<T>, x: T) -> bool {
    s.contains(x) && first_index(s, x) < 256
}

/// Why a downlink request cannot be carried into the mesh, if it cannot.
pub open spec fn encapsulation_error(conf: MeshConfig, req: DownlinkRequest) -> Option<MeshError> {
    if req.context@.len() < 6 {
        Some(MeshError::InvalidContext)
    } else if !has_byte_index(conf.data_rates@, data_rate_of(req.tx_info.modulation)) {
        Some(MeshError::UnknownDataRate)
    } else if !has_byte_index(conf.tx_power_table@, req.tx_info.power) {
        Some(MeshError::UnsupportedTxPower)
    } else if !(req.tx_info.timing is Delay && req.tx_info.timing->Delay_0 <= 255) {
        Some(MeshError::UnsupportedTiming)
    } else {
        None
    }
}

/// The relay id at the end of a downlink context, before the uplink id.
pub open spec fn context_relay_id(c: Seq<u8>) -> RelayId {
    [c[c.len() - 6], c[c.len() - 5], c[c.len() - 4], c[c.len() - 3]]
}

/// The uplink id that ends a downlink context.
pub open spec fn context_uplink_id(c: Seq<u8>) -> u16 {
    crate::packets::u16_of(c[c.len() - 2], c[c.len() - 1]) as u16
}

/// The unsigned mesh packet that carries a downlink request to its relay.
pub open spec fn encapsulated_model(conf: MeshConfig, req: DownlinkRequest) -> PacketModel {
    PacketModel {
        mhdr: MHDR { payload_type: PayloadType::Downlink, hop_count: 1 },
        payload: PayloadModel::Downlink(
            DownlinkModel {
                metadata: DownlinkMetadata {
                    uplink_id: context_uplink_id(req.context@),
                    dr: first_index(conf.data_rates@, data_rate_of(req.tx_info.modulation)) as u8,
                    frequency: req.tx_info.frequency,
                    tx_power: first_index(conf.tx_power_table@, req.tx_info.power) as u8,
                    delay: req.tx_info.timing->Delay_0 as u8,
                },
                relay_id: context_relay_id(req.context@),
                phy_payload: req.phy_payload@,
            },
        ),
        mic: None,
    }
}

/// Signs `packet` with `key` and returns its wire bytes.
fn sign_and_encode(packet: &mut MeshPacket, key: &crate::mic::Aes128Key) -> (r: Vec<u8>)
    requires
        old(packet)@.encodable(),
    ensures
        r@ == signed_wire(old(packet)@, *key),
        r@.len() == signed_bytes(old(packet)@).len() + 4,
{
    let ghost before = packet@;
    let _ = packet.set_mic(key);
    match packet.to_vec() {
        Ok(b) => {
            assert(b@ =~= signed_wire(before, *key));
            b
        },
        Err(_) => {
            // a packet that was just signed always encodes
            proof {
                assert(false);
            }
            Vec::new()
        },
    }
}

/// Wraps a downlink for an end device into a mesh packet for the relay named
/// in its context, to go out immediately on `mesh_frequency` at the mesh data
/// rate. The end device's frequency, data rate, power and delay travel inside.
pub fn encapsulate_downlink(conf: &MeshConfig, req: &DownlinkRequest, mesh_frequency: u32) -> (r:
    Result<DownlinkFrame, MeshError>)
    ensures
        r is Err <==> encapsulation_error(*conf, *req) is Some,
        r is Err ==> Some(r->Err_0) == encapsulation_error(*conf, *req),
        r is Ok ==> r->Ok_0.downlink_id == req.downlink_id,
        r is Ok ==> r->Ok_0.tx_info == mesh_tx_info(*conf, mesh_frequency),
        r is Ok ==> r->Ok_0.phy_payload@ == signed_wire(
            encapsulated_model(*conf, *req),
            conf.signing_key,
        ),
        r is Ok ==> r->Ok_0.phy_payload@.len() == signed_bytes(
            encapsulated_model(*conf, *req),
        ).len() + 4,
{
    let n = req.context.len();
    if n < 6 {
        return Err(MeshError::InvalidContext);
    }
    let modulation = req.tx_info.modulation;
    let wanted = DataRate {
        spreading_factor: modulation.spreading_factor,
        bandwidth: modulation.bandwidth,
    };
    let dr = match find_data_rate(&conf.data_rates, wanted) {
        Some(i) => {
            proof {
                lemma_first_index(conf.data_rates@, wanted, i as int);
            }
            if i >= 256 {
                return Err(MeshError::UnknownDataRate);
            }
            i as u8
        },
        None => return Err(MeshError::UnknownDataRate),
    };
    let tx_power = match find_tx_power(&conf.tx_power_table, req.tx_info.power) {
        Some(i) => {
            proof {
                lemma_first_index(conf.tx_power_table@, req.tx_info.power, i as int);
            }
            if i >= 256 {
                return Err(MeshError::UnsupportedTxPower);
            }
            i as u8
        },
        None => return Err(MeshError::UnsupportedTxPower),
    };
    let delay = match req.tx_info.timing {
        Timing::Delay(d) => {
            if d > 255 {
                return Err(MeshError::UnsupportedTiming);
            }
            d as u8
        },
        Timing::Immediately => return Err(MeshError::UnsupportedTiming),
    };
    let c = &req.context;
    let relay_id: RelayId = [c[n - 6], c[n - 5], c[n - 4], c[n - 3]];
    let uplink_id: u16 = (c[n - 2] as u16) * 256 + (c[n - 1] as u16);
    let mut packet = MeshPacket {
        mhdr: MHDR { payload_type: PayloadType::Downlink, hop_count: 1 },
        payload: Payload::Downlink(
            DownlinkPayload {
                metadata: DownlinkMetadata {
                    uplink_id,
                    dr,
                    frequency: req.tx_info.frequency,
                    tx_power,
                    delay,
                },
                relay_id,
                phy_payload: req.phy_payload.clone(),
            },
        ),
        mic: None,
    };
    assert(packet@ == encapsulated_model(*conf, *req));
    let phy_payload = sign_and_encode(&mut packet, &conf.signing_key);
    Ok(DownlinkFrame {
        downlink_id: req.downlink_id,
        phy_payload,
        tx_info: conf.mesh_tx_info(mesh_frequency),
    })
}

/// Carries a downlink request into the mesh on a mesh frequency picked at random.
pub fn handle_downlink(conf: &MeshConfig, req: &DownlinkRequest) -> (r: Result<
    DownlinkFrame,
    MeshError,
>)
    ensures
        r is Err <==> conf.frequencies@.len() == 0 || encapsulation_error(*conf, *req) is Some,
        r is Err ==> (if conf.frequencies@.len() == 0 {
            r->Err_0 == MeshError::NoMeshFrequency
        } else {
            Some(r->Err_0) == encapsulation_error(*conf, *req)
        }),
        r is Ok ==> r->Ok_0.downlink_id == req.downlink_id,
        r is Ok ==> conf.frequencies@.contains(r->Ok_0.tx_info.frequency),
        r is Ok ==> r->Ok_0.tx_info == mesh_tx_info(*conf, r->Ok_0.tx_info.frequency),
        r is Ok ==> r->Ok_0.phy_payload@ == signed_wire(
            encapsulated_model(*conf, *req),
            conf.signing_key,
        ),
{
    let frequency = get_mesh_frequency(conf)?;
    encapsulate_downlink(conf, req, frequency)
}

fn same_relay_id(a: &RelayId, b: &RelayId) -> (r: bool)
    ensures
        r == (*a == *b),
{
    let r = a[0] == b[0] && a[1] == b[1] && a[2] == b[2] && a[3] == b[3];
    if r {
        assert(a@ =~= b@);
        assert(*a == *b);
    } else {
        assert(*a != *b);
    }
    r
}

/// What a node does with a packet it received over the mesh.
#[derive(Clone, Debug, PartialEq, Eq)]
pub enum RelayAction {
    /// A heartbeat arrived; heartbeats go no further.
    Heartbeat(HeartbeatPayload),
    /// An uplink reached the Border Gateway, for the network server.
    Uplink(UplinkPayload),
    /// A frame to transmit: the packet forwarded into the mesh, or a downlink
    /// delivered to the end device.
    Transmit(DownlinkFrame),
}

/// The packet that `b` encodes, where there is one.
pub open spec fn decoded(b: Seq<u8>) -> PacketModel {
    choose|m: PacketModel| m.wf() && wire_bytes(m) == b
}

/// The unsigned packet a relay with id `own` sends on: one hop more, and for
/// an uplink its own id at the end of the relay path.
pub open spec fn forwarded_model(m: PacketModel, own: RelayId) -> PacketModel {
    PacketModel {
        mhdr: MHDR { payload_type: m.mhdr.payload_type, hop_count: (m.mhdr.hop_count + 1) as u8 },
        payload: match m.payload {
            PayloadModel::Uplink(u) => PayloadModel::Uplink(
                UplinkModel { relay_path: u.relay_path.push(own), ..u },
            ),
            p => p,
        },
        mic: None,
    }
}

/// Transmission of a delivered downlink to the end device.
pub open spec fn delivery_tx_info(conf: MeshConfig, d: DownlinkModel) -> TxInfo {
    TxInfo {
        frequency: d.metadata.frequency,
        power: conf.tx_power_table@[d.metadata.tx_power as int],
        modulation: LoraModulation {
            bandwidth: conf.data_rates@[d.metadata.dr as int].bandwidth,
            spreading_factor: conf.data_rates@[d.metadata.dr as int].spreading_factor,
            polarization_inversion: true,
        },
        timing: Timing::Delay(d.metadata.delay as u32),
    }
}

/// Why a received packet is dropped, if it is.
pub open spec fn receive_error(conf: MeshConfig, own: RelayId, b: Seq<u8>) -> Option<MeshError> {
    let m = decoded(b);
    if no_packet_encodes(b) {
        Some(MeshError::Packet(PacketError::Parse))
    } else if !mic_valid(m, conf.signing_key) {
        Some(MeshError::AuthenticationFailure)
    } else {
        match m.payload {
            PayloadModel::Heartbeat(_) => None,
            PayloadModel::Uplink(u) => if conf.border_gateway {
                None
            } else if m.mhdr.hop_count >= conf.max_hop_count || u.relay_path.len()
                >= conf.max_hop_count {
                Some(MeshError::PathOverflow)
            } else {
                None
            },
            PayloadModel::Downlink(d) => if d.relay_id == own {
                if d.metadata.dr >= conf.data_rates@.len() {
                    Some(MeshError::UnknownDataRate)
                } else if d.metadata.tx_power >= conf.tx_power_table@.len() {
                    Some(MeshError::UnsupportedTxPower)
                } else {
                    None
                }
            } else if m.mhdr.hop_count >= conf.max_hop_count {
                Some(MeshError::PathOverflow)
            } else {
                None
            },
        }
    }
}

/// Whether `a` is what a node with id `own` does on receiving `b`, `b` being
/// an authentic packet it does not drop.
pub open spec fn receive_action(
    conf: MeshConfig,
    own: RelayId,
    b: Seq<u8>,
    mesh_frequency: u32,
    downlink_id: u32,
    a: RelayAction,
) -> bool {
    let m = decoded(b);
    match m.payload {
        PayloadModel::Heartbeat(h) => a is Heartbeat && a->Heartbeat_0@ == h,
        PayloadModel::Uplink(u) => if conf.border_gateway {
            a is Uplink && a->Uplink_0@ == u
        } else {
            &&& a is Transmit
            &&& a->Transmit_0.downlink_id == downlink_id
            &&& a->Transmit_0.tx_info == mesh_tx_info(conf, mesh_frequency)
            &&& a->Transmit_0.phy_payload@ == signed_wire(forwarded_model(m, own), conf.signing_key)
            &&& a->Transmit_0.phy_payload@.len() == signed_bytes(forwarded_model(m, own)).len() + 4
        },
        PayloadModel::Downlink(d) => if d.relay_id == own {
            &&& a is Transmit
            &&& a->Transmit_0.downlink_id == downlink_id
            &&& a->Transmit_0.tx_info == delivery_tx_info(conf, d)
            &&& a->Transmit_0.phy_payload@ == d.phy_payload
        } else {
            &&& a is Transmit
            &&& a->Transmit_0.downlink_id == downlink_id
            &&& a->Transmit_0.tx_info == mesh_tx_info(conf, mesh_frequency)
            &&& a->Transmit_0.phy_payload@ == signed_wire(forwarded_model(m, own), conf.signing_key)
            &&& a->Transmit_0.phy_payload@.len() == signed_bytes(forwarded_model(m, own)).len() + 4
        },
    }
}

/// Handles a packet received over the mesh by the node with id `own`: decode,
/// authenticate, then consume it, deliver it, or forward it one hop further
/// on `mesh_frequency`.
pub fn receive_packet(
    conf: &MeshConfig,
    own: RelayId,
    b: &[u8],
    mesh_frequency: u32,
    downlink_id: u32,
) -> (r: Result<RelayAction, MeshError>)
    ensures
        r is Err <==> receive_error(*conf, own, b@) is Some,
        r is Err ==> Some(r->Err_0) == receive_error(*conf, own, b@),
        r is Ok ==> receive_action(*conf, own, b@, mesh_frequency, downlink_id, r->Ok_0),
{
    let mut packet = match MeshPacket::from_slice(b) {
        Ok(p) => p,
        Err(e) => return Err(MeshError::Packet(e)),
    };
    proof {
        crate::packets::lemma_codec_round_trip(packet@);
        assert(decoded(b@) == packet@);
    }
    let authentic = match packet.validate_mic(&conf.signing_key) {
        Ok(v) => v,
        Err(e) => return Err(MeshError::Packet(e)),
    };
    if !authentic {
        return Err(MeshError::AuthenticationFailure);
    }
    let ghost m = packet@;
    let hop_count = packet.mhdr.hop_count;
    match packet.payload {
        Payload::Heartbeat(h) => Ok(RelayAction::Heartbeat(h)),
        Payload::Uplink(mut u) => {
            if conf.border_gateway {
                return Ok(RelayAction::Uplink(u));
            }
            if hop_count >= conf.max_hop_count {
                return Err(MeshError::PathOverflow);
            }
            if let Err(e) = append_hop(&mut u.relay_path, own, conf.max_hop_count as usize) {
                return Err(MeshError::from_path_overflow(e));
            }
            let mut next = MeshPacket {
                mhdr: MHDR { payload_type: PayloadType::Uplink, hop_count: hop_count + 1 },
                payload: Payload::Uplink(u),
                mic: None,
            };
            assert(next@ == forwarded_model(m, own));
            let phy_payload = sign_and_encode(&mut next, &conf.signing_key);
            Ok(
                RelayAction::Transmit(
                    DownlinkFrame {
                        downlink_id,
                        phy_payload,
                        tx_info: conf.mesh_tx_info(mesh_frequency),
                    },
                ),
            )
        },
        Payload::Downlink(d) => {
            if same_relay_id(&d.relay_id, &own) {
                let dr = d.metadata.dr as usize;
                if dr >= conf.data_rates.len() {
                    return Err(MeshError::UnknownDataRate);
                }
                let power = d.metadata.tx_power as usize;
                if power >= conf.tx_power_table.len() {
                    return Err(MeshError::UnsupportedTxPower);
                }
                let rate = conf.data_rates[dr];
                let tx_info = TxInfo {
                    frequency: d.metadata.frequency,
                    power: conf.tx_power_table[power],
                    modulation: LoraModulation {
                        bandwidth: rate.bandwidth,
                        spreading_factor: rate.spreading_factor,
                        polarization_inversion: true,
                    },
                    timing: Timing::Delay(d.metadata.delay as u32),
                };
                return Ok(
                    RelayAction::Transmit(
                        DownlinkFrame { downlink_id, phy_payload: d.phy_payload, tx_info },
                    ),
                );
            }
            if hop_count >= conf.max_hop_count {
                return Err(MeshError::PathOverflow);
            }
            let mut next = MeshPacket {
                mhdr: MHDR { payload_type: PayloadType::Downlink, hop_count: hop_count + 1 },
                payload: Payload::Downlink(d),
                mic: None,
            };
            assert(next@ == forwarded_model(m, own));
            let phy_payload = sign_and_encode(&mut next, &conf.signing_key);
            Ok(
                RelayAction::Transmit(
                    DownlinkFrame {
                        downlink_id,
                        phy_payload,
                        tx_info: conf.mesh_tx_info(mesh_frequency),
                    },
                ),
            )
        },
    }
}

/// Bytes signed with a key decode to the packet that was signed, carrying a
/// MIC that verifies under that key.
pub proof fn lemma_signed_wire_decodes(m: PacketModel, key: crate::mic::Aes128Key, q: PacketModel)
    requires
        m.encodable(),
        signed_wire(m, key).len() == signed_bytes(m).len() + 4,
        q.wf(),
        wire_bytes(q) == signed_wire(m, key),
    ensures
        q == m.with_mic(q.mic),
        mic_valid(q, key),
{
    let w = wire_bytes(q);
    let n = w.len() as int;
    let mic: [u8; 4] = q.mic.unwrap();
    assert(w.subrange(0, n - 4) =~= signed_bytes(q));
    assert(w.subrange(0, n - 4) =~= signed_bytes(m));
    assert(mic@ =~= w.subrange(n - 4, n));
    assert(mic@ =~= expected_mic(m, key));
    assert(wire_bytes(m.with_mic(Some(mic))) =~= w);
    crate::packets::lemma_wire_injective(q, m.with_mic(Some(mic)));
    crate::packets::lemma_mic_round_trip(m, key, mic);
}

/// A packet a relay forwards is the one it received with the hop count one
/// higher, the relay's own id appended to an uplink's relay path, and a fresh
/// MIC under the mesh key.
pub proof fn lemma_forward_increments_hop(
    conf: MeshConfig,
    own: RelayId,
    b: Seq<u8>,
    mesh_frequency: u32,
    downlink_id: u32,
    a: RelayAction,
    q: PacketModel,
)
    requires
        receive_error(conf, own, b) is None,
        receive_action(conf, own, b, mesh_frequency, downlink_id, a),
        !(decoded(b).payload is Heartbeat),
        !(decoded(b).payload is Uplink && conf.border_gateway),
        !(decoded(b).payload is Downlink && decoded(b).payload->Downlink_0.relay_id == own),
        q.wf(),
        a is Transmit,
        wire_bytes(q) == a->Transmit_0.phy_payload@,
    ensures
        q.mhdr.hop_count == decoded(b).mhdr.hop_count + 1,
        q.mhdr.payload_type == decoded(b).mhdr.payload_type,
        q.payload is Uplink ==> q.payload->Uplink_0.relay_path == decoded(
            b,
        ).payload->Uplink_0.relay_path.push(own),
        q.payload is Downlink ==> q.payload == decoded(b).payload,
        mic_valid(q, conf.signing_key),
{
    let m = decoded(b);
    let f = forwarded_model(m, own);
    assert(m.wf() && wire_bytes(m) == b);
    assert(f.encodable());
    lemma_signed_wire_decodes(f, conf.signing_key, q);
}

} // verus!
