use fieldbus_master::group::{GroupState, Identity};
use fieldbus_master::master::{DiscoveredDevice, Enumeration, Master, MasterConfig, ScanError};
use fieldbus_master::pdu::PduEngine;
use fieldbus_master::registry::{LeaseRegistry, RxHandle, TransportHalves, TxHandle};

fn registry() -> LeaseRegistry {
    LeaseRegistry::new(TransportHalves {
        tx: TxHandle { channel: 0 },
        rx: RxHandle { channel: 0 },
        queue: PduEngine::new(16, 1000),
    })
}

fn master() -> Master {
    Master::new(MasterConfig {
        wait_loop_delay_ms: 2,
        mailbox_response_ms: 1000,
        dc_sync_iterations: 0,
    })
}

fn device(name: &str, width: usize) -> DiscoveredDevice {
    DiscoveredDevice {
        name: name.to_string(),
        identity: Identity {
            vendor: 0x2,
            product: 0x1234,
            revision: 1,
        },
        input_len: width,
        output_len: width,
        mailbox_ok: true,
        reported_input_len: width,
        reported_output_len: width,
    }
}

#[test]
fn scan_builds_group_in_discovery_order() {
    let mut reg = registry();
    let devs = vec![device("A", 4), device("B", 4), device("C", 4)];
    let g = master()
        .scan(&mut reg, Enumeration::Complete(devs), 16, 64)
        .unwrap();
    assert_eq!(g.state, GroupState::Init);
    assert_eq!(g.devices.len(), 3);
    // Addresses follow discovery order, stable across repeated scans.
    assert_eq!(g.devices[0].configured_address, 0x1001);
    assert_eq!(g.devices[1].configured_address, 0x1002);
    assert_eq!(g.devices[2].configured_address, 0x1003);
    // Byte windows are consecutive: offsets 0, 4, 8.
    assert_eq!(g.devices[0].output_offset, 0);
    assert_eq!(g.devices[1].output_offset, 4);
    assert_eq!(g.devices[2].output_offset, 8);
    assert_eq!(g.devices[0].input_offset, 0);
    assert_eq!(g.devices[1].input_offset, 4);
    assert_eq!(g.devices[2].input_offset, 8);
    assert_eq!(g.devices[1].name, "B");
    // Image sized to the totals, zero-filled.
    assert_eq!(g.inputs, vec![0u8; 12]);
    assert_eq!(g.outputs, vec![0u8; 12]);
    // The lease went back even on success.
    assert!(reg.acquire().is_ok());
}

#[test]
fn scan_rescan_is_deterministic() {
    let mut reg = registry();
    let m = master();
    let g1 = m
        .scan(&mut reg, Enumeration::Complete(vec![device("A", 2)]), 16, 64)
        .unwrap();
    let g2 = m
        .scan(&mut reg, Enumeration::Complete(vec![device("A", 2)]), 16, 64)
        .unwrap();
    assert_eq!(
        g1.devices[0].configured_address,
        g2.devices[0].configured_address
    );
}

#[test]
fn scan_busy_when_leased() {
    let mut reg = registry();
    let _held = reg.acquire().unwrap();
    let r = master().scan(&mut reg, Enumeration::Complete(vec![]), 16, 64);
    assert_eq!(r.err(), Some(ScanError::TransportBusy));
}

#[test]
fn scan_timeout_still_releases_lease() {
    let mut reg = registry();
    let r = master().scan(&mut reg, Enumeration::TimedOut, 16, 64);
    assert_eq!(r.err(), Some(ScanError::Timeout));
    // The failure path released the halves: the registry is Free again.
    let h = reg.acquire().unwrap();
    assert!(reg.release(h).is_ok());
}

#[test]
fn scan_too_many_devices_still_releases_lease() {
    let mut reg = registry();
    let devs: Vec<_> = (0..17).map(|_| device("X", 1)).collect();
    let r = master().scan(&mut reg, Enumeration::Complete(devs), 16, 64);
    assert_eq!(r.err(), Some(ScanError::CapacityExceeded));
    assert!(reg.acquire().is_ok());
}

#[test]
fn scan_image_too_large_still_releases_lease() {
    let mut reg = registry();
    // Two devices of 20 bytes each way: 80 bytes > the 64-byte image.
    let devs = vec![device("A", 20), device("B", 20)];
    let r = master().scan(&mut reg, Enumeration::Complete(devs), 16, 64);
    assert_eq!(r.err(), Some(ScanError::CapacityExceeded));
    assert!(reg.acquire().is_ok());
}

#[test]
fn default_config_reference_values() {
    let c = MasterConfig::default();
    assert_eq!(c.wait_loop_delay_ms, 2);
    assert_eq!(c.mailbox_response_ms, 1000);
    assert_eq!(c.dc_sync_iterations, 0);
}
