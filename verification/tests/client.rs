use clockkit::client::{compute_sample, ClockClient};
use clockkit::packet::{ClockPacket, PacketKind};
use clockkit::Error;

#[test]
fn sample_symmetric_delay() {
    // Server ahead by 100 us, 20 us transit each way.
    let (offset, rtt) = compute_sample(0, 120, 130, 40).unwrap();
    assert_eq!(offset, 105);
    assert_eq!(rtt, 30);
}

#[test]
fn sample_exact_values() {
    let (offset, rtt) = compute_sample(0, 15, 20, 30).unwrap();
    assert_eq!(offset, 2);
    assert_eq!(rtt, 25);
}

#[test]
fn sample_negative_offset() {
    // Server behind: offset comes out negative, rounded toward zero.
    let (offset, rtt) = compute_sample(100, 10, 15, 130).unwrap();
    assert_eq!(offset, ((10 - 100) + (15 - 130)) / 2);
    assert_eq!(rtt, (130 - 100) - (15 - 10));
    assert!(offset < 0);
}

#[test]
fn sample_bounds_in_order() {
    // With t1 <= t2 <= t3 <= t4, |offset| <= (t4 - t1) / 2 and rtt >= 0.
    let cases = [(0, 1, 2, 3), (0, 0, 0, 0), (5, 5, 9, 9), (0, 7, 7, 8)];
    for (t1, t2, t3, t4) in cases {
        let (offset, rtt) = compute_sample(t1, t2, t3, t4).unwrap();
        assert!(rtt >= 0);
        assert!(offset.abs() <= (t4 - t1) / 2);
    }
}

#[test]
fn sample_overflow() {
    assert_eq!(compute_sample(-2, i64::MAX, 0, 0), Err(Error::Overflow));
    assert_eq!(compute_sample(i64::MIN, 0, 0, i64::MAX), Err(Error::Overflow));
}

#[test]
fn request_sequence_increments() {
    let mut c = ClockClient::new(1000);
    assert_eq!(c.timeout_ms, 1000);
    let p0 = c.prepare_request(500);
    let p1 = c.prepare_request(600);
    assert_eq!(p0.sequence, 0);
    assert_eq!(p1.sequence, 1);
    assert_eq!(p0.kind, PacketKind::Request);
    assert_eq!(p0.client_send, 500);
    assert_eq!(p1.client_send, 600);
}

#[test]
fn request_sequence_wraps() {
    let mut c = ClockClient::new(1000);
    c.next_sequence = u32::MAX;
    let p = c.prepare_request(0);
    assert_eq!(p.sequence, u32::MAX);
    assert_eq!(c.next_sequence, 0);
}

#[test]
fn bounded_retries_end_in_timeout() {
    let c = ClockClient::new(1000);
    // Two unanswered requests earn another try; the third ends the sample.
    assert_eq!(c.on_timeout(0), Ok(1));
    assert_eq!(c.on_timeout(1), Ok(2));
    assert_eq!(c.on_timeout(2), Err(Error::Timeout));
    assert_eq!(c.on_timeout(5), Err(Error::Timeout));
}

#[test]
fn reply_accepted() {
    let mut c = ClockClient::new(1000);
    let req = c.prepare_request(0);
    let rep = ClockPacket::new_reply(&req, 15, 20);
    let r = c.evaluate_reply(&req, &rep.serialize(), 30);
    assert_eq!(r, Some(Ok((2, 25))));
}

#[test]
fn reply_wrong_sequence_discarded() {
    let mut c = ClockClient::new(1000);
    let req = c.prepare_request(0);
    let mut rep = ClockPacket::new_reply(&req, 15, 20);
    rep.sequence = req.sequence.wrapping_add(1);
    assert_eq!(c.evaluate_reply(&req, &rep.serialize(), 30), None);
}

#[test]
fn echoed_request_discarded() {
    let mut c = ClockClient::new(1000);
    let req = c.prepare_request(0);
    assert_eq!(c.evaluate_reply(&req, &req.serialize(), 30), None);
}

#[test]
fn malformed_reply_discarded() {
    let mut c = ClockClient::new(1000);
    let req = c.prepare_request(0);
    assert_eq!(c.evaluate_reply(&req, &[0u8; 5], 30), None);
    assert_eq!(c.evaluate_reply(&req, &[9u8; 29], 30), None);
}
