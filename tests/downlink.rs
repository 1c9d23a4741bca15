use gateway_mesh::config::{
    DataRate, DownlinkRequest, LoraModulation, MeshConfig, Timing, TxInfo,
};
use gateway_mesh::mesh::{encapsulate_downlink, handle_downlink, MeshError};
use gateway_mesh::mic::Aes128Key;
use gateway_mesh::packets::{
    DownlinkMetadata, DownlinkPayload, MeshPacket, Payload, PayloadType, MHDR,
};

fn eu868_rates() -> Vec<DataRate> {
    vec![
        DataRate { spreading_factor: 12, bandwidth: 125000 },
        DataRate { spreading_factor: 11, bandwidth: 125000 },
        DataRate { spreading_factor: 10, bandwidth: 125000 },
        DataRate { spreading_factor: 9, bandwidth: 125000 },
        DataRate { spreading_factor: 8, bandwidth: 125000 },
        DataRate { spreading_factor: 7, bandwidth: 125000 },
    ]
}

fn border_config() -> MeshConfig {
    MeshConfig {
        border_gateway: true,
        heartbeat_interval: None,
        signing_key: Aes128Key::null(),
        frequencies: vec![868100000],
        data_rate: DataRate { spreading_factor: 7, bandwidth: 125000 },
        tx_power: 16,
        max_hop_count: 3,
        data_rates: eu868_rates(),
        tx_power_table: vec![20, 16, 14, 12, 10, 8, 6, 4],
    }
}

fn request() -> DownlinkRequest {
    DownlinkRequest {
        downlink_id: 1,
        phy_payload: vec![9, 8, 7, 6],
        tx_info: TxInfo {
            frequency: 868500000,
            power: 16,
            modulation: LoraModulation {
                bandwidth: 125000,
                spreading_factor: 12,
                polarization_inversion: true,
            },
            timing: Timing::Delay(3),
        },
        context: vec![1, 2, 3, 1, 2, 3, 4, 0, 123],
    }
}

#[test]
fn test_border_gateway_downlink_mesh() {
    let conf = border_config();
    let down = handle_downlink(&conf, &request()).unwrap();
    let mesh_packet = MeshPacket::from_slice(&down.phy_payload).unwrap();

    let mut packet = MeshPacket {
        mhdr: MHDR { payload_type: PayloadType::Downlink, hop_count: 1 },
        payload: Payload::Downlink(DownlinkPayload {
            metadata: DownlinkMetadata {
                uplink_id: 123,
                dr: 0,
                frequency: 868500000,
                tx_power: 1,
                delay: 3,
            },
            relay_id: [1, 2, 3, 4],
            phy_payload: vec![9, 8, 7, 6],
        }),
        mic: None,
    };
    packet.set_mic(&Aes128Key::null()).unwrap();
    assert_eq!(packet, mesh_packet);

    assert_eq!(
        TxInfo {
            frequency: 868100000,
            power: 16,
            modulation: LoraModulation {
                bandwidth: 125000,
                spreading_factor: 7,
                polarization_inversion: false,
            },
            timing: Timing::Immediately,
        },
        down.tx_info
    );
    assert_eq!(1, down.downlink_id);
}

#[test]
fn encapsulated_bytes_are_exact() {
    let conf = border_config();
    let down = encapsulate_downlink(&conf, &request(), 868300000).unwrap();
    let p = &down.phy_payload;
    // header, uplink id, dr, frequency, tx power, delay, relay id, phy payload, mic
    assert_eq!(
        &p[..19],
        &[1, 1, 0, 123, 0, 0x33, 0xc4, 0x42, 0x20, 1, 3, 1, 2, 3, 4, 9, 8, 7, 6]
    );
    assert_eq!(p.len(), 23);
    assert_eq!(down.tx_info.frequency, 868300000);
}

#[test]
fn encapsulation_rejects_short_context() {
    let mut req = request();
    req.context = vec![1, 2, 3, 4, 0];
    assert_eq!(
        encapsulate_downlink(&border_config(), &req, 868100000),
        Err(MeshError::InvalidContext)
    );
}

#[test]
fn encapsulation_rejects_unknown_data_rate() {
    let mut req = request();
    req.tx_info.modulation.bandwidth = 250000;
    assert_eq!(
        encapsulate_downlink(&border_config(), &req, 868100000),
        Err(MeshError::UnknownDataRate)
    );
}

#[test]
fn encapsulation_rejects_unknown_power() {
    let mut req = request();
    req.tx_info.power = 15;
    assert_eq!(
        encapsulate_downlink(&border_config(), &req, 868100000),
        Err(MeshError::UnsupportedTxPower)
    );
}

#[test]
fn encapsulation_rejects_immediate_or_long_delay() {
    let mut req = request();
    req.tx_info.timing = Timing::Immediately;
    assert_eq!(
        encapsulate_downlink(&border_config(), &req, 868100000),
        Err(MeshError::UnsupportedTiming)
    );
    req.tx_info.timing = Timing::Delay(256);
    assert_eq!(
        encapsulate_downlink(&border_config(), &req, 868100000),
        Err(MeshError::UnsupportedTiming)
    );
}

#[test]
fn downlink_without_mesh_frequency_fails() {
    let mut conf = border_config();
    conf.frequencies = vec![];
    assert_eq!(handle_downlink(&conf, &request()), Err(MeshError::NoMeshFrequency));
}
