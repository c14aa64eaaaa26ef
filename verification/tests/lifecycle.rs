use fieldbus_master::group::{
    DeviceGroup, GroupState, Identity, SubDevice, SyncOutcome, TransitionError,
};

fn subdevice(i: usize, width: usize) -> SubDevice {
    SubDevice {
        configured_address: 0x1001 + i as u16,
        name: format!("D{}", i),
        identity: Identity {
            vendor: 0x2,
            product: 0x1234,
            revision: 1,
        },
        input_offset: i * width,
        input_len: width,
        output_offset: i * width,
        output_len: width,
        mailbox_ok: true,
        reported_input_len: width,
        reported_output_len: width,
    }
}

fn group(n: usize, width: usize) -> DeviceGroup {
    DeviceGroup {
        devices: (0..n).map(|i| subdevice(i, width)).collect(),
        inputs: vec![0u8; n * width],
        outputs: vec![0u8; n * width],
        state: GroupState::Init,
        device_capacity: 16,
        pdi_capacity: 64,
        dc_sync_iterations: 0,
        consecutive_failures: 0,
    }
}

#[test]
fn transitions_in_order() {
    let mut g = group(3, 4);
    assert!(g.into_pre_op().is_ok());
    assert_eq!(g.state, GroupState::PreOp);
    assert!(g.into_safe_op().is_ok());
    assert_eq!(g.state, GroupState::SafeOp);
    assert!(g.into_op(SyncOutcome::Converged).is_ok());
    assert_eq!(g.state, GroupState::Op);
}

#[test]
fn safe_op_before_pre_op_is_an_ordering_error() {
    let mut g = group(3, 4);
    // Skipping PreOp is refused, not silently performed.
    assert_eq!(g.into_safe_op(), Err(TransitionError::OrderViolation));
    assert_eq!(g.state, GroupState::Init);
}

#[test]
fn transitions_are_not_reversible() {
    let mut g = group(2, 4);
    assert!(g.into_op(SyncOutcome::Converged).is_ok());
    // Asking for an earlier state from Op is an ordering error.
    assert_eq!(g.into_pre_op(), Err(TransitionError::OrderViolation));
    assert_eq!(g.into_safe_op(), Err(TransitionError::OrderViolation));
    assert_eq!(g.into_op(SyncOutcome::Converged), Err(TransitionError::OrderViolation));
    assert_eq!(g.state, GroupState::Op);
}

#[test]
fn config_error_names_the_device() {
    let mut g = group(3, 4);
    g.devices[1].mailbox_ok = false;
    assert_eq!(
        g.into_pre_op(),
        Err(TransitionError::ConfigError { address: 0x1002 })
    );
    assert_eq!(g.state, GroupState::Init);
}

#[test]
fn mismatch_error_names_the_device() {
    let mut g = group(3, 4);
    g.devices[2].reported_output_len = 2;
    assert!(g.into_pre_op().is_ok());
    assert_eq!(
        g.into_safe_op(),
        Err(TransitionError::MismatchError { address: 0x1003 })
    );
    assert_eq!(g.state, GroupState::PreOp);
}

#[test]
fn safe_op_zeroes_outputs() {
    let mut g = group(2, 4);
    g.outputs = vec![0xAB; 8];
    assert!(g.into_pre_op().is_ok());
    assert!(g.into_safe_op().is_ok());
    assert_eq!(g.outputs, vec![0u8; 8]);
}

#[test]
fn sync_timeout_stays_at_safe_op() {
    let mut g = group(2, 4);
    g.dc_sync_iterations = 10_000;
    assert_eq!(
        g.into_op(SyncOutcome::TimedOut),
        Err(TransitionError::SyncTimeout)
    );
    // Atomic failure: the group stands at the last reached state.
    assert_eq!(g.state, GroupState::SafeOp);
    // Sync count zero skips the procedure entirely.
    g.dc_sync_iterations = 0;
    assert!(g.into_op(SyncOutcome::TimedOut).is_ok());
    assert_eq!(g.state, GroupState::Op);
}

#[test]
fn into_op_stops_at_first_failure() {
    let mut g = group(3, 4);
    g.devices[0].mailbox_ok = false;
    assert_eq!(
        g.into_op(SyncOutcome::Converged),
        Err(TransitionError::ConfigError { address: 0x1001 })
    );
    assert_eq!(g.state, GroupState::Init);
}

#[test]
fn list_devices_reports_the_group() {
    let g = group(2, 4);
    let infos = g.list_devices();
    assert_eq!(infos.len(), 2);
    assert_eq!(infos[0].configured_address, 0x1001);
    assert_eq!(infos[1].name, "D1");
    assert_eq!(infos[1].input_len, 4);
}
