use gateway_mesh::config::{DataRate, LoraModulation, MeshConfig, Timing, TxInfo};
use gateway_mesh::heartbeat::{
    effective_heartbeat_interval, new_heartbeat, own_relay_id, report_heartbeat, setup,
    BORDER_HEARTBEAT_INTERVAL,
};
use gateway_mesh::mesh::{mesh_frequency_at, MeshError};
use gateway_mesh::mic::Aes128Key;
use gateway_mesh::packets::{MeshPacket, Payload, PayloadType};

fn config(border_gateway: bool, heartbeat_interval: Option<u64>) -> MeshConfig {
    MeshConfig {
        border_gateway,
        heartbeat_interval,
        signing_key: Aes128Key::from_bytes([7; 16]),
        frequencies: vec![868100000, 868300000],
        data_rate: DataRate { spreading_factor: 7, bandwidth: 125000 },
        tx_power: 14,
        max_hop_count: 3,
        data_rates: vec![],
        tx_power_table: vec![],
    }
}

#[test]
fn zero_interval_starts_no_loop() {
    assert_eq!(setup(&config(false, Some(0))), None);
    assert_eq!(setup(&config(true, Some(0))), None);
}

#[test]
fn relay_without_interval_starts_no_loop() {
    assert_eq!(setup(&config(false, None)), None);
}

#[test]
fn relay_uses_configured_interval() {
    assert_eq!(setup(&config(false, Some(300))), Some(300));
    assert_eq!(effective_heartbeat_interval(&config(false, Some(30))), 30);
}

#[test]
fn border_uses_fixed_interval() {
    assert_eq!(setup(&config(true, None)), Some(60));
    assert_eq!(setup(&config(true, Some(300))), Some(BORDER_HEARTBEAT_INTERVAL));
}

#[test]
fn border_heartbeat_carries_reserved_id() {
    let conf = config(true, None);
    let frame = report_heartbeat(&conf, Some([9, 9, 9, 9]), 1000).unwrap();
    let p = MeshPacket::from_slice(&frame.phy_payload).unwrap();
    assert_eq!(p.mhdr.payload_type, PayloadType::Heartbeat);
    assert_eq!(p.mhdr.hop_count, 1);
    match &p.payload {
        Payload::Heartbeat(h) => {
            assert_eq!(h.relay_id, [0, 0, 0, 0]);
            assert_eq!(h.timestamp, 1000);
            assert!(h.relay_path.is_empty());
        }
        _ => panic!("not a heartbeat"),
    }
    assert_eq!(p.validate_mic(&conf.signing_key), Ok(true));
    assert!(conf.frequencies.contains(&frame.tx_info.frequency));
    assert_eq!(frame.tx_info.power, 14);
    assert_eq!(frame.tx_info.timing, Timing::Immediately);
    assert_eq!(
        frame.tx_info.modulation,
        LoraModulation { bandwidth: 125000, spreading_factor: 7, polarization_inversion: false }
    );
}

#[test]
fn relay_heartbeat_carries_reported_id() {
    let conf = config(false, Some(30));
    let frame = report_heartbeat(&conf, Some([1, 2, 3, 4]), 5).unwrap();
    let p = MeshPacket::from_slice(&frame.phy_payload).unwrap();
    let expected = new_heartbeat([1, 2, 3, 4], 5, &conf.signing_key);
    assert_eq!(p, expected);
}

#[test]
fn relay_identity_errors() {
    let conf = config(false, Some(30));
    assert_eq!(report_heartbeat(&conf, None, 5), Err(MeshError::IdentityUnavailable));
    assert_eq!(
        report_heartbeat(&conf, Some([0, 0, 0, 0]), 5),
        Err(MeshError::IdentityUnavailable)
    );
    assert_eq!(own_relay_id(true, None), Ok([0, 0, 0, 0]));
    assert_eq!(own_relay_id(false, Some([0, 0, 0, 1])), Ok([0, 0, 0, 1]));
}

#[test]
fn heartbeat_without_mesh_frequency_fails() {
    let mut conf = config(true, None);
    conf.frequencies = vec![];
    assert_eq!(report_heartbeat(&conf, None, 5), Err(MeshError::NoMeshFrequency));
}

#[test]
fn mesh_frequency_selection() {
    let freqs = vec![868100000, 868300000, 868500000];
    assert_eq!(mesh_frequency_at(&freqs, 0), Ok(868100000));
    assert_eq!(mesh_frequency_at(&freqs, 4), Ok(868300000));
    assert_eq!(mesh_frequency_at(&vec![], 4), Err(MeshError::NoMeshFrequency));
}

#[test]
fn mesh_tx_info_uses_mesh_settings() {
    let conf = config(false, None);
    assert_eq!(
        conf.mesh_tx_info(868300000),
        TxInfo {
            frequency: 868300000,
            power: 14,
            modulation: LoraModulation {
                bandwidth: 125000,
                spreading_factor: 7,
                polarization_inversion: false
            },
            timing: Timing::Immediately,
        }
    );
}
