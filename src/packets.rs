//! Mesh packets: data model, canonical wire encoding and decoding.
use vstd::prelude::*;

use crate::mic::{compute_mic, mic_of, Aes128Key};

verus! {

/// A 4-byte node identifier.
pub type RelayId = [u8; 4];

/// The identifier reserved for the Border Gateway.
pub const BORDER_RELAY_ID: RelayId = [0u8, 0u8, 0u8, 0u8];

/// Kind of payload a packet carries.
#[derive(Clone, Copy, PartialEq, Eq, Structural, Debug)]
pub enum PayloadType {
    Uplink,
    Downlink,
    Heartbeat,
}

/// Packet header.
#[derive(Clone, Copy, PartialEq, Eq, Structural, Debug)]
pub struct MHDR {
    pub payload_type: PayloadType,
    pub hop_count: u8,
}

/// Radio metadata of an uplink received by a relay.
#[derive(Clone, Copy, PartialEq, Eq, Structural, Debug)]
pub struct UplinkMetadata {
    pub uplink_id: u16,
    pub dr: u8,
    pub channel: u8,
}

/// Transmission parameters for the end device, carried inside a downlink.
#[derive(Clone, Copy, PartialEq, Eq, Structural, Debug)]
pub struct DownlinkMetadata {
    pub uplink_id: u16,
    pub dr: u8,
    pub frequency: u32,
    pub tx_power: u8,
    pub delay: u8,
}

#[derive(Clone, Debug, PartialEq, Eq)]
pub struct HeartbeatPayload {
    /// Seconds since the Unix epoch.
    pub timestamp: u32,
    pub relay_id: RelayId,
    pub relay_path: Vec<RelayId>,
}

#[derive(Clone, Debug, PartialEq, Eq)]
pub struct UplinkPayload {
    pub metadata: UplinkMetadata,
    pub relay_id: RelayId,
    pub relay_path: Vec<RelayId>,
    pub phy_payload: Vec<u8>,
}

#[derive(Clone, Debug, PartialEq, Eq)]
pub struct DownlinkPayload {
    pub metadata: DownlinkMetadata,
    pub relay_id: RelayId,
    pub phy_payload: Vec<u8>,
}

#[derive(Clone, Debug, PartialEq, Eq)]
pub enum Payload {
    Uplink(UplinkPayload),
    Downlink(DownlinkPayload),
    Heartbeat(HeartbeatPayload),
}

/// The unit of transport between mesh nodes.
#[derive(Clone, Debug, PartialEq, Eq)]
pub struct MeshPacket {
    pub mhdr: MHDR,
    pub payload: Payload,
    pub mic: Option<[u8; 4]>,
}

/// Errors of the packet codec.
#[derive(Clone, Copy, PartialEq, Eq, Structural, Debug)]
pub enum PacketError {
    /// The bytes are not the encoding of any packet.
    Parse,
    /// The hop count is zero.
    InvalidHopCount,
    /// The header's payload type disagrees with the payload.
    PayloadTypeMismatch,
    /// An uplink relay path holds more than 255 entries.
    RelayPathTooLong,
    /// The packet has no MIC yet.
    MissingMic,
}

// ----- mathematical model -----

pub struct HeartbeatModel {
    pub timestamp: u32,
    pub relay_id: RelayId,
    pub relay_path: Seq<RelayId>,
}

pub struct UplinkModel {
    pub metadata: UplinkMetadata,
    pub relay_id: RelayId,
    pub relay_path: Seq<RelayId>,
    pub phy_payload: Seq<u8>,
}

pub struct DownlinkModel {
    pub metadata: DownlinkMetadata,
    pub relay_id: RelayId,
    pub phy_payload: Seq<u8>,
}

pub enum PayloadModel {
    Uplink(UplinkModel),
    Downlink(DownlinkModel),
    Heartbeat(HeartbeatModel),
}

pub struct PacketModel {
    pub mhdr: MHDR,
    pub payload: PayloadModel,
    pub mic: Option<[u8; 4]>,
}

impl View for HeartbeatPayload {
    type V = HeartbeatModel;

    open spec fn view(&self) -> HeartbeatModel {
        HeartbeatModel {
            timestamp: self.timestamp,
            relay_id: self.relay_id,
            relay_path: self.relay_path@,
        }
    }
}

impl View for UplinkPayload {
    type V = UplinkModel;

    open spec fn view(&self) -> UplinkModel {
        UplinkModel {
            metadata: self.metadata,
            relay_id: self.relay_id,
            relay_path: self.relay_path@,
            phy_payload: self.phy_payload@,
        }
    }
}

impl View for DownlinkPayload {
    type V = DownlinkModel;

    open spec fn view(&self) -> DownlinkModel {
        DownlinkModel {
            metadata: self.metadata,
            relay_id: self.relay_id,
            phy_payload: self.phy_payload@,
        }
    }
}

impl View for Payload {
    type V = PayloadModel;

    open spec fn view(&self) -> PayloadModel {
        match self {
            Payload::Uplink(p) => PayloadModel::Uplink(p@),
            Payload::Downlink(p) => PayloadModel::Downlink(p@),
            Payload::Heartbeat(p) => PayloadModel::Heartbeat(p@),
        }
    }
}

impl View for MeshPacket {
    type V = PacketModel;

    open spec fn view(&self) -> PacketModel {
        PacketModel { mhdr: self.mhdr, payload: self.payload@, mic: self.mic }
    }
}

pub open spec fn type_tag(t: PayloadType) -> u8 {
    match t {
        PayloadType::Uplink => 0,
        PayloadType::Downlink => 1,
        PayloadType::Heartbeat => 2,
    }
}

pub open spec fn payload_type_of(p: PayloadModel) -> PayloadType {
    match p {
        PayloadModel::Uplink(_) => PayloadType::Uplink,
        PayloadModel::Downlink(_) => PayloadType::Downlink,
        PayloadModel::Heartbeat(_) => PayloadType::Heartbeat,
    }
}

impl PacketModel {
    /// A packet that can be put on the wire, MIC aside.
    pub open spec fn encodable(self) -> bool {
        &&& self.mhdr.hop_count >= 1
        &&& self.mhdr.payload_type == payload_type_of(self.payload)
        &&& (self.payload is Uplink ==> self.payload->Uplink_0.relay_path.len() <= 255)
    }

    /// A packet as it stands on the wire: encodable and signed.
    pub open spec fn wf(self) -> bool {
        self.encodable() && self.mic is Some
    }

    /// The model with another MIC.
    pub open spec fn with_mic(self, mic: Option<[u8; 4]>) -> PacketModel {
        PacketModel { mic, ..self }
    }
}

// ----- wire format -----

/// Big-endian bytes of a 16-bit value.
pub open spec fn be16(x: u16) -> Seq<u8> {
    seq![(x / 256) as u8, (x % 256) as u8]
}

/// Big-endian bytes of a 32-bit value.
pub open spec fn be32(x: u32) -> Seq<u8> {
    seq![
        (x / 0x100_0000) as u8,
        ((x / 0x1_0000) % 256) as u8,
        ((x / 256) % 256) as u8,
        (x % 256) as u8,
    ]
}

/// The relay identifiers of a path, one after the other.
pub open spec fn path_bytes(path: Seq<RelayId>) -> Seq<u8>
    decreases path.len(),
{
    if path.len() == 0 {
        Seq::empty()
    } else {
        path_bytes(path.drop_last()) + path.last()@
    }
}

pub open spec fn uplink_meta_bytes(m: UplinkMetadata) -> Seq<u8> {
    be16(m.uplink_id) + seq![m.dr, m.channel]
}

pub open spec fn downlink_meta_bytes(m: DownlinkMetadata) -> Seq<u8> {
    be16(m.uplink_id) + seq![m.dr] + be32(m.frequency) + seq![m.tx_power, m.delay]
}

/// Payload encoding. A heartbeat's relay path runs to the end of the payload;
/// an uplink's is preceded by its number of entries and followed by the PHY
/// payload, which runs to the end, as a downlink's does.
pub open spec fn payload_bytes(p: PayloadModel) -> Seq<u8> {
    match p {
        PayloadModel::Heartbeat(h) => be32(h.timestamp) + h.relay_id@ + path_bytes(h.relay_path),
        PayloadModel::Uplink(u) => uplink_meta_bytes(u.metadata) + u.relay_id@ + seq![
            u.relay_path.len() as u8,
        ] + path_bytes(u.relay_path) + u.phy_payload,
        PayloadModel::Downlink(d) => downlink_meta_bytes(d.metadata) + d.relay_id@
            + d.phy_payload,
    }
}

/// The bytes a MIC is computed over: header and payload.
pub open spec fn signed_bytes(m: PacketModel) -> Seq<u8> {
    seq![type_tag(m.mhdr.payload_type), m.mhdr.hop_count] + payload_bytes(m.payload)
}

/// The full wire encoding of a signed packet: header, payload, MIC.
pub open spec fn wire_bytes(m: PacketModel) -> Seq<u8> {
    signed_bytes(m) + m.mic.unwrap()@
}

/// The MIC a packet should carry under `key`.
pub open spec fn expected_mic(m: PacketModel, key: Aes128Key) -> Seq<u8> {
    mic_of(key, signed_bytes(m))
}

/// The first reason, if any, why a packet cannot be signed or encoded.
pub open spec fn encode_error(m: PacketModel) -> Option<PacketError> {
    if m.mhdr.hop_count == 0 {
        Some(PacketError::InvalidHopCount)
    } else if m.mhdr.payload_type != payload_type_of(m.payload) {
        Some(PacketError::PayloadTypeMismatch)
    } else if m.payload is Uplink && m.payload->Uplink_0.relay_path.len() > 255 {
        Some(PacketError::RelayPathTooLong)
    } else {
        None
    }
}

fn push_be16(v: &mut Vec<u8>, x: u16)
    ensures
        final(v)@ == old(v)@ + be16(x),
{
    v.push((x / 256) as u8);
    v.push((x % 256) as u8);
    assert(final(v)@ =~= old(v)@ + be16(x));
}

fn push_be32(v: &mut Vec<u8>, x: u32)
    ensures
        final(v)@ == old(v)@ + be32(x),
{
    v.push((x / 0x100_0000) as u8);
    v.push(((x / 0x1_0000) % 256) as u8);
    v.push(((x / 256) % 256) as u8);
    v.push((x % 256) as u8);
    assert(final(v)@ =~= old(v)@ + be32(x));
}

fn push_bytes(v: &mut Vec<u8>, s: &[u8])
    ensures
        final(v)@ == old(v)@ + s@,
{
    let ghost start = v@;
    let mut i: usize = 0;
    while i < s.len()
        invariant
            i <= s@.len(),
            v@ == start + s@.subrange(0, i as int),
        decreases s@.len() - i,
    {
        v.push(s[i]);
        i = i + 1;
        assert(v@ =~= start + s@.subrange(0, i as int));
    }
    assert(s@.subrange(0, s@.len() as int) =~= s@);
}

fn push_path(v: &mut Vec<u8>, path: &Vec<RelayId>)
    ensures
        final(v)@ == old(v)@ + path_bytes(path@),
{
    let ghost start = v@;
    let mut i: usize = 0;
    while i < path.len()
        invariant
            i <= path@.len(),
            v@ == start + path_bytes(path@.subrange(0, i as int)),
        decreases path@.len() - i,
    {
        let id: RelayId = path[i];
        push_bytes(v, &id);
        i = i + 1;
        assert(path@.subrange(0, i as int).drop_last() =~= path@.subrange(0, i - 1));
        assert(v@ =~= start + path_bytes(path@.subrange(0, i as int)));
    }
    assert(path@.subrange(0, path@.len() as int) =~= path@);
}

impl MeshPacket {
    fn check_encodable(&self) -> (r: Result<(), PacketError>)
        ensures
            r is Ok <==> encode_error(self@) is None,
            r is Err ==> encode_error(self@) == Some(r->Err_0),
            encode_error(self@) is None <==> self@.encodable(),
    {
        if self.mhdr.hop_count == 0 {
            return Err(PacketError::InvalidHopCount);
        }
        let matches_type = match &self.payload {
            Payload::Uplink(_) => self.mhdr.payload_type == PayloadType::Uplink,
            Payload::Downlink(_) => self.mhdr.payload_type == PayloadType::Downlink,
            Payload::Heartbeat(_) => self.mhdr.payload_type == PayloadType::Heartbeat,
        };
        if !matches_type {
            return Err(PacketError::PayloadTypeMismatch);
        }
        if let Payload::Uplink(u) = &self.payload {
            if u.relay_path.len() > 255 {
                return Err(PacketError::RelayPathTooLong);
            }
        }
        Ok(())
    }

    /// Header and payload bytes, the part a MIC covers.
    fn signed_vec(&self) -> (r: Vec<u8>)
        requires
            self@.encodable(),
        ensures
            r@ == signed_bytes(self@),
    {
        let mut v: Vec<u8> = Vec::new();
        let tag: u8 = match self.mhdr.payload_type {
            PayloadType::Uplink => 0,
            PayloadType::Downlink => 1,
            PayloadType::Heartbeat => 2,
        };
        v.push(tag);
        v.push(self.mhdr.hop_count);
        assert(v@ =~= seq![type_tag(self.mhdr.payload_type), self.mhdr.hop_count]);
        let ghost head = v@;
        match &self.payload {
            Payload::Heartbeat(h) => {
                push_be32(&mut v, h.timestamp);
                push_bytes(&mut v, &h.relay_id);
                push_path(&mut v, &h.relay_path);
                assert(v@ =~= head + payload_bytes(self@.payload));
            },
            Payload::Uplink(u) => {
                push_be16(&mut v, u.metadata.uplink_id);
                v.push(u.metadata.dr);
                v.push(u.metadata.channel);
                push_bytes(&mut v, &u.relay_id);
                v.push(u.relay_path.len() as u8);
                push_path(&mut v, &u.relay_path);
                push_bytes(&mut v, u.phy_payload.as_slice());
                assert(v@ =~= head + payload_bytes(self@.payload));
            },
            Payload::Downlink(d) => {
                push_be16(&mut v, d.metadata.uplink_id);
                v.push(d.metadata.dr);
                push_be32(&mut v, d.metadata.frequency);
                v.push(d.metadata.tx_power);
                v.push(d.metadata.delay);
                push_bytes(&mut v, &d.relay_id);
                push_bytes(&mut v, d.phy_payload.as_slice());
                assert(v@ =~= head + payload_bytes(self@.payload));
            },
        }
        v
    }

    /// Computes the MIC over header and payload and stores it in the packet.
    pub fn set_mic(&mut self, key: &Aes128Key) -> (r: Result<(), PacketError>)
        ensures
            r is Err <==> encode_error(old(self)@) is Some,
            r is Err ==> encode_error(old(self)@) == Some(r->Err_0) && final(self)@ == old(
                self,
            )@,
            r is Ok ==> final(self)@.mic is Some && final(self)@ == old(self)@.with_mic(
                final(self)@.mic,
            ) && final(self)@.mic.unwrap()@ == expected_mic(old(self)@, *key),
    {
        self.check_encodable()?;
        let bytes = self.signed_vec();
        let mic = compute_mic(key, bytes.as_slice());
        self.mic = Some(mic);
        Ok(())
    }

    /// Whether the stored MIC is the one `key` gives for header and payload.
    pub fn validate_mic(&self, key: &Aes128Key) -> (r: Result<bool, PacketError>)
        ensures
            r is Err <==> encode_error(self@) is Some,
            r is Err ==> encode_error(self@) == Some(r->Err_0),
            r is Ok ==> (r->Ok_0 <==> self.mic is Some && self.mic.unwrap()@ == expected_mic(
                self@,
                *key,
            )),
    {
        self.check_encodable()?;
        match self.mic {
            None => Ok(false),
            Some(m) => {
                let bytes = self.signed_vec();
                let expected = compute_mic(key, bytes.as_slice());
                let same = m[0] == expected[0] && m[1] == expected[1] && m[2] == expected[2]
                    && m[3] == expected[3];
                assert(same ==> m@ =~= expected@);
                Ok(same)
            },
        }
    }

    /// The wire encoding: header, payload and MIC.
    pub fn to_vec(&self) -> (r: Result<Vec<u8>, PacketError>)
        ensures
            r is Ok <==> self@.wf(),
            r is Ok ==> r->Ok_0@ == wire_bytes(self@),
            r is Err ==> (if encode_error(self@) is Some {
                encode_error(self@) == Some(r->Err_0)
            } else {
                r->Err_0 == PacketError::MissingMic
            }),
    {
        self.check_encodable()?;
        match self.mic {
            None => Err(PacketError::MissingMic),
            Some(m) => {
                let mut v = self.signed_vec();
                push_bytes(&mut v, &m);
                Ok(v)
            },
        }
    }
}

// ----- byte-level lemmas -----

pub open spec fn u16_of(b0: u8, b1: u8) -> int {
    b0 * 256 + b1
}

pub open spec fn u32_of(b0: u8, b1: u8, b2: u8, b3: u8) -> int {
    b0 * 0x100_0000 + b1 * 0x1_0000 + b2 * 256 + b3
}

proof fn lemma_be16(x: u16)
    ensures
        u16_of(be16(x)[0], be16(x)[1]) == x,
{
}

proof fn lemma_be16_of(b0: u8, b1: u8)
    ensures
        be16(u16_of(b0, b1) as u16) == seq![b0, b1],
{
    assert(be16(u16_of(b0, b1) as u16) =~= seq![b0, b1]);
}

proof fn lemma_be32(x: u32)
    ensures
        u32_of(be32(x)[0], be32(x)[1], be32(x)[2], be32(x)[3]) == x,
{
    let a = x / 0x100_0000;
    let r = x % 0x100_0000;
    assert(r / 0x1_0000 == (x / 0x1_0000) % 256) by (nonlinear_arith)
        requires
            a == x / 0x100_0000,
            r == x % 0x100_0000,
            0 <= x < 0x1_0000_0000,
    ;
    assert((r % 0x1_0000) / 256 == (x / 256) % 256) by (nonlinear_arith)
        requires
            r == x % 0x100_0000,
            0 <= x < 0x1_0000_0000,
    ;
}

proof fn lemma_be32_of(b0: u8, b1: u8, b2: u8, b3: u8)
    ensures
        be32(u32_of(b0, b1, b2, b3) as u32) == seq![b0, b1, b2, b3],
{
    let v = u32_of(b0, b1, b2, b3);
    assert(v / 0x100_0000 == b0 && (v / 0x1_0000) % 256 == b1 && (v / 256) % 256 == b2 && v % 256
        == b3) by (nonlinear_arith)
        requires
            v == b0 * 0x100_0000 + b1 * 0x1_0000 + b2 * 256 + b3,
            0 <= b0 < 256,
            0 <= b1 < 256,
            0 <= b2 < 256,
            0 <= b3 < 256,
    ;
    assert(be32(v as u32) =~= seq![b0, b1, b2, b3]);
}

proof fn lemma_path_bytes_len(path: Seq<RelayId>)
    ensures
        path_bytes(path).len() == 4 * path.len(),
    decreases path.len(),
{
    if path.len() > 0 {
        lemma_path_bytes_len(path.drop_last());
    }
}

proof fn lemma_path_bytes_injective(p1: Seq<RelayId>, p2: Seq<RelayId>)
    requires
        p1.len() == p2.len(),
        path_bytes(p1) == path_bytes(p2),
    ensures
        p1 == p2,
    decreases p1.len(),
{
    if p1.len() > 0 {
        let (a, b) = (path_bytes(p1.drop_last()), path_bytes(p2.drop_last()));
        lemma_path_bytes_len(p1.drop_last());
        lemma_path_bytes_len(p2.drop_last());
        assert(a =~= path_bytes(p1).subrange(0, a.len() as int));
        assert(b =~= path_bytes(p2).subrange(0, b.len() as int));
        lemma_path_bytes_injective(p1.drop_last(), p2.drop_last());
        assert(p1.last()@ =~= path_bytes(p1).subrange(a.len() as int, a.len() as int + 4));
        assert(p2.last()@ =~= path_bytes(p2).subrange(b.len() as int, b.len() as int + 4));
        assert(p1.last() == p2.last());
        assert(p1 =~= p1.drop_last().push(p1.last()));
        assert(p2 =~= p2.drop_last().push(p2.last()));
    }
}

proof fn lemma_wire_shape(m: PacketModel)
    requires
        m.wf(),
    ensures
        wire_bytes(m).len() == 6 + payload_bytes(m.payload).len(),
        wire_bytes(m)[0] == type_tag(m.mhdr.payload_type),
        wire_bytes(m)[1] == m.mhdr.hop_count,
        m.payload is Heartbeat ==> payload_bytes(m.payload).len() == 8 + 4
            * m.payload->Heartbeat_0.relay_path.len(),
        m.payload is Uplink ==> payload_bytes(m.payload).len() == 9 + 4
            * m.payload->Uplink_0.relay_path.len() + m.payload->Uplink_0.phy_payload.len(),
        m.payload is Uplink ==> wire_bytes(m)[10] == m.payload->Uplink_0.relay_path.len(),
        m.payload is Downlink ==> payload_bytes(m.payload).len() == 13
            + m.payload->Downlink_0.phy_payload.len(),
{
    match m.payload {
        PayloadModel::Heartbeat(h) => lemma_path_bytes_len(h.relay_path),
        PayloadModel::Uplink(u) => {
            lemma_path_bytes_len(u.relay_path);
            assert(wire_bytes(m)[10] == payload_bytes(m.payload)[8]);
        },
        PayloadModel::Downlink(_) => {},
    }
}

/// No signed, well-formed packet is encoded as `b`.
pub open spec fn no_packet_encodes(b: Seq<u8>) -> bool {
    forall|m: PacketModel| m.wf() ==> wire_bytes(m) != b
}

fn copy_range(b: &[u8], lo: usize, hi: usize) -> (r: Vec<u8>)
    requires
        lo <= hi <= b@.len(),
    ensures
        r@ == b@.subrange(lo as int, hi as int),
{
    let mut r: Vec<u8> = Vec::new();
    let mut i: usize = lo;
    while i < hi
        invariant
            lo <= i <= hi <= b@.len(),
            r@ == b@.subrange(lo as int, i as int),
        decreases hi - i,
    {
        r.push(b[i]);
        i = i + 1;
        assert(r@ =~= b@.subrange(lo as int, i as int));
    }
    r
}

fn read_path(b: &[u8], start: usize, count: usize) -> (r: Vec<RelayId>)
    requires
        start + 4 * count <= b@.len(),
    ensures
        r@.len() == count,
        path_bytes(r@) == b@.subrange(start as int, start + 4 * count),
{
    let blen = b.len();
    let mut r: Vec<RelayId> = Vec::new();
    let mut i: usize = 0;
    while i < count
        invariant
            i <= count,
            blen == b@.len(),
            start + 4 * count <= b@.len(),
            r@.len() == i,
            path_bytes(r@) == b@.subrange(start as int, start + 4 * i),
        decreases count - i,
    {
        let o: usize = start + 4 * i;
        let id: RelayId = [b[o], b[o + 1], b[o + 2], b[o + 3]];
        let ghost before = r@;
        r.push(id);
        assert(r@.drop_last() =~= before);
        i = i + 1;
        assert(path_bytes(r@) =~= b@.subrange(start as int, start + 4 * i));
    }
    r
}

/// Decodes a heartbeat packet's payload, or shows that no packet is encoded as `b`.
fn decode_heartbeat(b: &[u8]) -> (r: Option<HeartbeatPayload>)
    requires
        b@.len() >= 6,
        b@[0] == 2,
        b@[1] >= 1,
    ensures
        r is Some ==> payload_bytes(PayloadModel::Heartbeat(r->Some_0@)) == b@.subrange(
            2,
            b@.len() - 4,
        ),
        r is None ==> no_packet_encodes(b@),
{
    let n = b.len();
    let body_len: usize = n - 6;
    if body_len < 8 || (body_len - 8) % 4 != 0 {
        proof {
            assert forall|m: PacketModel| m.wf() implies wire_bytes(m) != b@ by {
                lemma_wire_shape(m);
            }
        }
        return None;
    }
    let count: usize = (body_len - 8) / 4;
    let timestamp = (b[2] as u32) * 0x100_0000 + (b[3] as u32) * 0x1_0000 + (b[4] as u32) * 256
        + (b[5] as u32);
    let relay_id: RelayId = [b[6], b[7], b[8], b[9]];
    let relay_path = read_path(b, 10, count);
    let h = HeartbeatPayload { timestamp, relay_id, relay_path };
    proof {
        lemma_be32_of(b[2], b[3], b[4], b[5]);
        assert(be32(timestamp) =~= b@.subrange(2, 6));
        assert(relay_id@ =~= b@.subrange(6, 10));
        assert(payload_bytes(PayloadModel::Heartbeat(h@)) =~= b@.subrange(2, n - 4));
    }
    Some(h)
}

/// Decodes an uplink packet's payload, or shows that no packet is encoded as `b`.
fn decode_uplink(b: &[u8]) -> (r: Option<UplinkPayload>)
    requires
        b@.len() >= 6,
        b@[0] == 0,
        b@[1] >= 1,
    ensures
        r is Some ==> r->Some_0.relay_path@.len() <= 255 && payload_bytes(
            PayloadModel::Uplink(r->Some_0@),
        ) == b@.subrange(2, b@.len() - 4),
        r is None ==> no_packet_encodes(b@),
{
    let n = b.len();
    let body_len: usize = n - 6;
    if body_len < 9 || body_len - 9 < 4 * (b[10] as usize) {
        proof {
            assert forall|m: PacketModel| m.wf() implies wire_bytes(m) != b@ by {
                lemma_wire_shape(m);
            }
        }
        return None;
    }
    let count: usize = b[10] as usize;
    let uplink_id = (b[2] as u16) * 256 + (b[3] as u16);
    let metadata = UplinkMetadata { uplink_id, dr: b[4], channel: b[5] };
    let relay_id: RelayId = [b[6], b[7], b[8], b[9]];
    let relay_path = read_path(b, 11, count);
    let phy_start: usize = 11 + 4 * count;
    let phy_payload = copy_range(b, phy_start, n - 4);
    let u = UplinkPayload { metadata, relay_id, relay_path, phy_payload };
    proof {
        lemma_be16_of(b[2], b[3]);
        assert(uplink_meta_bytes(metadata) =~= b@.subrange(2, 6));
        assert(relay_id@ =~= b@.subrange(6, 10));
        assert(payload_bytes(PayloadModel::Uplink(u@)) =~= b@.subrange(2, n - 4));
    }
    Some(u)
}

/// Decodes a downlink packet's payload, or shows that no packet is encoded as `b`.
fn decode_downlink(b: &[u8]) -> (r: Option<DownlinkPayload>)
    requires
        b@.len() >= 6,
        b@[0] == 1,
        b@[1] >= 1,
    ensures
        r is Some ==> payload_bytes(PayloadModel::Downlink(r->Some_0@)) == b@.subrange(
            2,
            b@.len() - 4,
        ),
        r is None ==> no_packet_encodes(b@),
{
    let n = b.len();
    if n - 6 < 13 {
        proof {
            assert forall|m: PacketModel| m.wf() implies wire_bytes(m) != b@ by {
                lemma_wire_shape(m);
            }
        }
        return None;
    }
    let uplink_id = (b[2] as u16) * 256 + (b[3] as u16);
    let frequency = (b[5] as u32) * 0x100_0000 + (b[6] as u32) * 0x1_0000 + (b[7] as u32) * 256
        + (b[8] as u32);
    let metadata = DownlinkMetadata { uplink_id, dr: b[4], frequency, tx_power: b[9], delay: b[10] };
    let relay_id: RelayId = [b[11], b[12], b[13], b[14]];
    let phy_payload = copy_range(b, 15, n - 4);
    let d = DownlinkPayload { metadata, relay_id, phy_payload };
    proof {
        lemma_be16_of(b[2], b[3]);
        lemma_be32_of(b[5], b[6], b[7], b[8]);
        assert(downlink_meta_bytes(metadata) =~= b@.subrange(2, 11));
        assert(relay_id@ =~= b@.subrange(11, 15));
        assert(payload_bytes(PayloadModel::Downlink(d@)) =~= b@.subrange(2, n - 4));
    }
    Some(d)
}

impl MeshPacket {
    /// Decodes a packet from its wire encoding. The MIC is read, not checked.
    pub fn from_slice(b: &[u8]) -> (r: Result<MeshPacket, PacketError>)
        ensures
            r is Ok <==> !no_packet_encodes(b@),
            r is Ok ==> r->Ok_0@.wf() && wire_bytes(r->Ok_0@) == b@,
            r is Err ==> r->Err_0 == PacketError::Parse,
    {
        let n = b.len();
        if n < 6 || b[0] > 2 || b[1] == 0 {
            proof {
                assert forall|m: PacketModel| m.wf() implies wire_bytes(m) != b@ by {
                    lemma_wire_shape(m);
                }
            }
            return Err(PacketError::Parse);
        }
        let mhdr = MHDR {
            payload_type: if b[0] == 0 {
                PayloadType::Uplink
            } else if b[0] == 1 {
                PayloadType::Downlink
            } else {
                PayloadType::Heartbeat
            },
            hop_count: b[1],
        };
        let payload = if b[0] == 0 {
            match decode_uplink(b) {
                Some(u) => Payload::Uplink(u),
                None => return Err(PacketError::Parse),
            }
        } else if b[0] == 1 {
            match decode_downlink(b) {
                Some(d) => Payload::Downlink(d),
                None => return Err(PacketError::Parse),
            }
        } else {
            match decode_heartbeat(b) {
                Some(h) => Payload::Heartbeat(h),
                None => return Err(PacketError::Parse),
            }
        };
        let mic: [u8; 4] = [b[n - 4], b[n - 3], b[n - 2], b[n - 1]];
        let packet = MeshPacket { mhdr, payload, mic: Some(mic) };
        proof {
            assert(mic@ =~= b@.subrange(n - 4, n as int));
            assert(b@ =~= seq![b@[0], b@[1]] + b@.subrange(2, n - 4) + b@.subrange(
                n - 4,
                n as int,
            ));
            assert(wire_bytes(packet@) =~= b@);
        }
        Ok(packet)
    }
}

proof fn lemma_payload_injective(p1: PayloadModel, p2: PayloadModel)
    requires
        payload_type_of(p1) == payload_type_of(p2),
        p1 is Uplink ==> p1->Uplink_0.relay_path.len() <= 255,
        p2 is Uplink ==> p2->Uplink_0.relay_path.len() <= 255,
        payload_bytes(p1) == payload_bytes(p2),
    ensures
        p1 == p2,
{
    let b = payload_bytes(p1);
    match (p1, p2) {
        (PayloadModel::Heartbeat(h1), PayloadModel::Heartbeat(h2)) => {
            lemma_path_bytes_len(h1.relay_path);
            lemma_path_bytes_len(h2.relay_path);
            lemma_be32(h1.timestamp);
            lemma_be32(h2.timestamp);
            assert(be32(h1.timestamp) =~= b.subrange(0, 4));
            assert(be32(h2.timestamp) =~= b.subrange(0, 4));
            assert(h1.relay_id@ =~= b.subrange(4, 8));
            assert(h2.relay_id@ =~= b.subrange(4, 8));
            assert(path_bytes(h1.relay_path) =~= b.subrange(8, b.len() as int));
            assert(path_bytes(h2.relay_path) =~= b.subrange(8, b.len() as int));
            lemma_path_bytes_injective(h1.relay_path, h2.relay_path);
            assert(h1.timestamp == h2.timestamp);
            assert(h1.relay_id == h2.relay_id);
        },
        (PayloadModel::Uplink(u1), PayloadModel::Uplink(u2)) => {
            lemma_path_bytes_len(u1.relay_path);
            lemma_path_bytes_len(u2.relay_path);
            lemma_be16(u1.metadata.uplink_id);
            lemma_be16(u2.metadata.uplink_id);
            assert(b[8] == u1.relay_path.len() as u8 && b[8] == u2.relay_path.len() as u8);
            let k = u1.relay_path.len() as int;
            assert(uplink_meta_bytes(u1.metadata) =~= b.subrange(0, 4));
            assert(uplink_meta_bytes(u2.metadata) =~= b.subrange(0, 4));
            assert(u1.relay_id@ =~= b.subrange(4, 8));
            assert(u2.relay_id@ =~= b.subrange(4, 8));
            assert(path_bytes(u1.relay_path) =~= b.subrange(9, 9 + 4 * k));
            assert(path_bytes(u2.relay_path) =~= b.subrange(9, 9 + 4 * k));
            assert(u1.phy_payload =~= b.subrange(9 + 4 * k, b.len() as int));
            assert(u2.phy_payload =~= b.subrange(9 + 4 * k, b.len() as int));
            lemma_path_bytes_injective(u1.relay_path, u2.relay_path);
            assert(be16(u1.metadata.uplink_id) =~= b.subrange(0, 2));
            assert(be16(u2.metadata.uplink_id) =~= b.subrange(0, 2));
            assert(u1.metadata.uplink_id == u2.metadata.uplink_id);
            assert(uplink_meta_bytes(u1.metadata)[2] == u1.metadata.dr);
            assert(uplink_meta_bytes(u2.metadata)[2] == u2.metadata.dr);
            assert(uplink_meta_bytes(u1.metadata)[3] == u1.metadata.channel);
            assert(uplink_meta_bytes(u2.metadata)[3] == u2.metadata.channel);
            assert(u1.metadata.dr == u2.metadata.dr);
            assert(u1.metadata.channel == u2.metadata.channel);
            assert(u1.metadata == u2.metadata);
            assert(u1.relay_id == u2.relay_id);
        },
        (PayloadModel::Downlink(d1), PayloadModel::Downlink(d2)) => {
            lemma_be16(d1.metadata.uplink_id);
            lemma_be16(d2.metadata.uplink_id);
            lemma_be32(d1.metadata.frequency);
            lemma_be32(d2.metadata.frequency);
            assert(downlink_meta_bytes(d1.metadata) =~= b.subrange(0, 9));
            assert(downlink_meta_bytes(d2.metadata) =~= b.subrange(0, 9));
            assert(d1.relay_id@ =~= b.subrange(9, 13));
            assert(d2.relay_id@ =~= b.subrange(9, 13));
            assert(d1.phy_payload =~= b.subrange(13, b.len() as int));
            assert(d2.phy_payload =~= b.subrange(13, b.len() as int));
            assert(be16(d1.metadata.uplink_id) =~= b.subrange(0, 2));
            assert(be16(d2.metadata.uplink_id) =~= b.subrange(0, 2));
            assert(be32(d1.metadata.frequency) =~= b.subrange(3, 7));
            assert(be32(d2.metadata.frequency) =~= b.subrange(3, 7));
            assert(d1.metadata.uplink_id == d2.metadata.uplink_id);
            assert(d1.metadata.frequency == d2.metadata.frequency);
            assert(downlink_meta_bytes(d1.metadata)[2] == d1.metadata.dr);
            assert(downlink_meta_bytes(d2.metadata)[2] == d2.metadata.dr);
            assert(downlink_meta_bytes(d1.metadata)[7] == d1.metadata.tx_power);
            assert(downlink_meta_bytes(d2.metadata)[7] == d2.metadata.tx_power);
            assert(downlink_meta_bytes(d1.metadata)[8] == d1.metadata.delay);
            assert(downlink_meta_bytes(d2.metadata)[8] == d2.metadata.delay);
            assert(d1.metadata.dr == d2.metadata.dr);
            assert(d1.metadata.tx_power == d2.metadata.tx_power);
            assert(d1.metadata == d2.metadata);
            assert(d1.relay_id == d2.relay_id);
        },
        _ => {},
    }
}

/// Distinct well-formed packets have distinct wire encodings.
pub proof fn lemma_wire_injective(m1: PacketModel, m2: PacketModel)
    requires
        m1.wf(),
        m2.wf(),
        wire_bytes(m1) == wire_bytes(m2),
    ensures
        m1 == m2,
{
    let w = wire_bytes(m1);
    lemma_wire_shape(m1);
    lemma_wire_shape(m2);
    let n = w.len() as int;
    assert(payload_bytes(m1.payload) =~= w.subrange(2, n - 4));
    assert(payload_bytes(m2.payload) =~= w.subrange(2, n - 4));
    assert(m1.mic.unwrap()@ =~= w.subrange(n - 4, n));
    assert(m2.mic.unwrap()@ =~= w.subrange(n - 4, n));
    assert(m1.mic.unwrap() == m2.mic.unwrap());
    lemma_payload_injective(m1.payload, m2.payload);
}

/// Decoding undoes encoding: the wire bytes of a signed, well-formed packet
/// decode to a packet, and to that packet alone.
pub proof fn lemma_codec_round_trip(m: PacketModel)
    requires
        m.wf(),
    ensures
        !no_packet_encodes(wire_bytes(m)),
        forall|q: PacketModel| #[trigger] q.wf() && wire_bytes(q) == wire_bytes(m) ==> q == m,
{
    assert forall|q: PacketModel| #[trigger] q.wf() && wire_bytes(q) == wire_bytes(m) implies q
        == m by {
        lemma_wire_injective(q, m);
    }
}

/// Whether a packet carries the MIC that `key` gives for its header and payload.
pub open spec fn mic_valid(m: PacketModel, key: Aes128Key) -> bool {
    m.mic is Some && m.mic.unwrap()@ == expected_mic(m, key)
}

/// A packet signed with a key verifies under that key: the MIC covers header
/// and payload only, so storing it leaves what it covers unchanged.
pub proof fn lemma_mic_round_trip(m: PacketModel, key: Aes128Key, mic: [u8; 4])
    requires
        mic@ == expected_mic(m, key),
    ensures
        mic_valid(m.with_mic(Some(mic)), key),
{
    assert(signed_bytes(m.with_mic(Some(mic))) == signed_bytes(m));
}

} // verus!
