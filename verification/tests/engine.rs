use fieldbus_master::pdu::{PduEngine, PollResult, SendError};

#[test]
fn request_response_matching_by_sequence_id() {
    let mut e = PduEngine::new(8, 1000);
    let h1 = e.send_request(0x1001, vec![1, 2], 0).unwrap();
    let h2 = e.send_request(0x1002, vec![3, 4], 0).unwrap();
    assert_ne!(h1, h2);
    // A frame is matched to the pending request with its identifier.
    assert!(e.deliver(h2, vec![0xBB]));
    assert!(e.deliver(h1, vec![0xAA]));
    match e.poll_response(h1, 1) {
        PollResult::Ready(p) => assert_eq!(p, vec![0xAA]),
        _ => panic!("response for h1 must be ready"),
    }
    match e.poll_response(h2, 1) {
        PollResult::Ready(p) => assert_eq!(p, vec![0xBB]),
        _ => panic!("response for h2 must be ready"),
    }
}

#[test]
fn unknown_and_duplicate_frames_are_ignored() {
    let mut e = PduEngine::new(8, 1000);
    let h = e.send_request(0x1001, vec![], 0).unwrap();
    assert!(!e.deliver(h + 1, vec![1]));
    assert!(e.deliver(h, vec![2]));
    // A second frame with the same identifier no longer matches.
    assert!(!e.deliver(h, vec![3]));
    match e.poll_response(h, 0) {
        PollResult::Ready(p) => assert_eq!(p, vec![2]),
        _ => panic!("first frame must have been kept"),
    }
}

#[test]
fn poll_times_out_after_the_mailbox_window() {
    let mut e = PduEngine::new(8, 1000);
    let h = e.send_request(0x1001, vec![], 100).unwrap();
    match e.poll_response(h, 900) {
        PollResult::Pending => {}
        _ => panic!("still within the window"),
    }
    match e.poll_response(h, 1100) {
        PollResult::TimedOut => {}
        _ => panic!("window passed without a response"),
    }
    // The request is settled, not left hanging.
    match e.poll_response(h, 1200) {
        PollResult::Unknown => {}
        _ => panic!("a settled request leaves the queue"),
    }
}

#[test]
fn queue_full_at_the_frame_cap() {
    let mut e = PduEngine::new(2, 1000);
    e.send_request(1, vec![], 0).unwrap();
    e.send_request(2, vec![], 0).unwrap();
    assert_eq!(e.send_request(3, vec![], 0), Err(SendError::QueueFull));
}

#[test]
fn cancel_all_settles_every_pending_pdu() {
    let mut e = PduEngine::new(8, 1000);
    let h1 = e.send_request(1, vec![], 0).unwrap();
    let h2 = e.send_request(2, vec![], 0).unwrap();
    e.cancel_all();
    match e.poll_response(h1, 0) {
        PollResult::Unknown => {}
        _ => panic!("cancelled"),
    }
    match e.poll_response(h2, 0) {
        PollResult::Unknown => {}
        _ => panic!("cancelled"),
    }
}
