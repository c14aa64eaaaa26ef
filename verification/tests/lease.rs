use fieldbus_master::pdu::PduEngine;
use fieldbus_master::registry::{LeaseError, LeaseRegistry, RxHandle, TransportHalves, TxHandle};

fn halves() -> TransportHalves {
    TransportHalves {
        tx: TxHandle { channel: 7 },
        rx: RxHandle { channel: 7 },
        queue: PduEngine::new(16, 1000),
    }
}

#[test]
fn acquire_is_exclusive() {
    let mut reg = LeaseRegistry::new(halves());
    let first = reg.acquire();
    assert!(first.is_ok());
    // While the lease is out, every further acquire fails.
    match reg.acquire() {
        Err(LeaseError::AlreadyLeased) => {}
        _ => panic!("second acquire must fail while leased"),
    }
    match reg.acquire() {
        Err(LeaseError::AlreadyLeased) => {}
        _ => panic!("third acquire must fail while leased"),
    }
}

#[test]
fn release_then_reacquire() {
    let mut reg = LeaseRegistry::new(halves());
    let h = reg.acquire().unwrap();
    assert_eq!(h.tx.channel, 7);
    assert!(reg.release(h).is_ok());
    // The lease cycle can start over.
    let h = reg.acquire().unwrap();
    assert_eq!(h.rx.channel, 7);
    assert!(reg.release(h).is_ok());
}

#[test]
fn double_release_rejected() {
    let mut reg = LeaseRegistry::new(halves());
    let h = reg.acquire().unwrap();
    assert!(reg.release(h).is_ok());
    // A second release of the same lease is a programming error and is
    // rejected rather than overwriting the parked halves.
    match reg.release(halves()) {
        Err(LeaseError::NotLeased) => {}
        _ => panic!("double release must be rejected"),
    }
}
