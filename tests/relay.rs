use gateway_mesh::config::{DataRate, LoraModulation, MeshConfig, Timing, TxInfo};
use gateway_mesh::heartbeat::new_heartbeat;
use gateway_mesh::mesh::{receive_packet, MeshError, RelayAction};
use gateway_mesh::mic::Aes128Key;
use gateway_mesh::packets::{
    DownlinkMetadata, DownlinkPayload, MeshPacket, Payload, PayloadType, UplinkMetadata,
    UplinkPayload, MHDR,
};

const OWN: [u8; 4] = [1, 2, 3, 4];

fn config(border_gateway: bool) -> MeshConfig {
    MeshConfig {
        border_gateway,
        heartbeat_interval: None,
        signing_key: Aes128Key::from_bytes([3; 16]),
        frequencies: vec![868100000],
        data_rate: DataRate { spreading_factor: 7, bandwidth: 125000 },
        tx_power: 14,
        max_hop_count: 3,
        data_rates: vec![
            DataRate { spreading_factor: 12, bandwidth: 125000 },
            DataRate { spreading_factor: 11, bandwidth: 125000 },
        ],
        tx_power_table: vec![16, 14, 12],
    }
}

fn signed(mut p: MeshPacket, conf: &MeshConfig) -> Vec<u8> {
    p.set_mic(&conf.signing_key).unwrap();
    p.to_vec().unwrap()
}

fn uplink(hop_count: u8, path: Vec<[u8; 4]>) -> MeshPacket {
    MeshPacket {
        mhdr: MHDR { payload_type: PayloadType::Uplink, hop_count },
        payload: Payload::Uplink(UplinkPayload {
            metadata: UplinkMetadata { uplink_id: 12, dr: 5, channel: 0 },
            relay_id: [8, 8, 8, 8],
            relay_path: path,
            phy_payload: vec![0x40, 0xaa],
        }),
        mic: None,
    }
}

fn downlink(relay_id: [u8; 4], hop_count: u8) -> MeshPacket {
    MeshPacket {
        mhdr: MHDR { payload_type: PayloadType::Downlink, hop_count },
        payload: Payload::Downlink(DownlinkPayload {
            metadata: DownlinkMetadata {
                uplink_id: 123,
                dr: 1,
                frequency: 868500000,
                tx_power: 2,
                delay: 3,
            },
            relay_id,
            phy_payload: vec![9, 8, 7, 6],
        }),
        mic: None,
    }
}

#[test]
fn heartbeat_is_consumed() {
    let conf = config(false);
    let b = new_heartbeat([5, 5, 5, 5], 77, &conf.signing_key).to_vec().unwrap();
    match receive_packet(&conf, OWN, &b, 868100000, 1) {
        Ok(RelayAction::Heartbeat(h)) => {
            assert_eq!(h.relay_id, [5, 5, 5, 5]);
            assert_eq!(h.timestamp, 77);
        }
        other => panic!("unexpected {:?}", other),
    }
}

#[test]
fn relay_forwards_uplink_with_its_id() {
    let conf = config(false);
    let b = signed(uplink(1, vec![]), &conf);
    let frame = match receive_packet(&conf, OWN, &b, 868100000, 42) {
        Ok(RelayAction::Transmit(f)) => f,
        other => panic!("unexpected {:?}", other),
    };
    assert_eq!(frame.downlink_id, 42);
    assert_eq!(frame.tx_info, conf.mesh_tx_info(868100000));
    let p = MeshPacket::from_slice(&frame.phy_payload).unwrap();
    assert_eq!(p.validate_mic(&conf.signing_key), Ok(true));
    let mut expected = uplink(2, vec![OWN]);
    expected.set_mic(&conf.signing_key).unwrap();
    assert_eq!(p, expected);
}

#[test]
fn border_consumes_uplink() {
    let conf = config(true);
    let b = signed(uplink(2, vec![[6, 6, 6, 6]]), &conf);
    match receive_packet(&conf, [0, 0, 0, 0], &b, 868100000, 1) {
        Ok(RelayAction::Uplink(u)) => {
            assert_eq!(u.relay_path, vec![[6, 6, 6, 6]]);
            assert_eq!(u.phy_payload, vec![0x40, 0xaa]);
        }
        other => panic!("unexpected {:?}", other),
    }
}

#[test]
fn uplink_at_hop_bound_is_dropped() {
    let conf = config(false);
    let b = signed(uplink(3, vec![]), &conf);
    assert_eq!(receive_packet(&conf, OWN, &b, 868100000, 1), Err(MeshError::PathOverflow));
    let b = signed(uplink(1, vec![[1, 1, 1, 1], [2, 2, 2, 2], [3, 3, 3, 3]]), &conf);
    assert_eq!(receive_packet(&conf, OWN, &b, 868100000, 1), Err(MeshError::PathOverflow));
}

#[test]
fn downlink_for_this_relay_is_delivered() {
    let conf = config(false);
    let b = signed(downlink(OWN, 1), &conf);
    match receive_packet(&conf, OWN, &b, 868100000, 9) {
        Ok(RelayAction::Transmit(f)) => {
            assert_eq!(f.phy_payload, vec![9, 8, 7, 6]);
            assert_eq!(
                f.tx_info,
                TxInfo {
                    frequency: 868500000,
                    power: 12,
                    modulation: LoraModulation {
                        bandwidth: 125000,
                        spreading_factor: 11,
                        polarization_inversion: true
                    },
                    timing: Timing::Delay(3),
                }
            );
        }
        other => panic!("unexpected {:?}", other),
    }
}

#[test]
fn downlink_for_another_relay_is_forwarded() {
    let conf = config(false);
    let b = signed(downlink([9, 9, 9, 9], 1), &conf);
    match receive_packet(&conf, OWN, &b, 868100000, 9) {
        Ok(RelayAction::Transmit(f)) => {
            let p = MeshPacket::from_slice(&f.phy_payload).unwrap();
            let mut expected = downlink([9, 9, 9, 9], 2);
            expected.set_mic(&conf.signing_key).unwrap();
            assert_eq!(p, expected);
            assert_eq!(f.tx_info, conf.mesh_tx_info(868100000));
        }
        other => panic!("unexpected {:?}", other),
    }
}

#[test]
fn delivery_with_unknown_indexes_fails() {
    let mut conf = config(false);
    conf.tx_power_table = vec![16];
    let b = signed(downlink(OWN, 1), &conf);
    assert_eq!(receive_packet(&conf, OWN, &b, 868100000, 9), Err(MeshError::UnsupportedTxPower));
    conf.data_rates = vec![];
    let b = signed(downlink(OWN, 1), &conf);
    assert_eq!(receive_packet(&conf, OWN, &b, 868100000, 9), Err(MeshError::UnknownDataRate));
}

#[test]
fn forged_or_malformed_packets_are_dropped() {
    let conf = config(false);
    let mut b = signed(downlink([9, 9, 9, 9], 1), &conf);
    let last = b.len() - 1;
    b[last] ^= 0xff;
    assert_eq!(
        receive_packet(&conf, OWN, &b, 868100000, 9),
        Err(MeshError::AuthenticationFailure)
    );
    assert_eq!(
        receive_packet(&conf, OWN, &[7, 1, 0], 868100000, 9),
        Err(MeshError::Packet(gateway_mesh::packets::PacketError::Parse))
    );
}
