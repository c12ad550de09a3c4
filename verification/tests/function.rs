//! The whole pipeline in one process: a client session, a server session
//! and a phase-locked clock exchanging real packet bytes, with synthetic
//! timestamps standing in for the network.

use clockkit::client::ClockClient;
use clockkit::config::Config;
use clockkit::plc::PhaseLockedClock;
use clockkit::server::ClockServer;

#[test]
fn client_synchronizes() {
    let config = Config::default();
    let mut client = ClockClient::new(config.timeout);
    let mut server = ClockServer::new();

    // The reference runs 250 us ahead of the client's real clock, which
    // here ticks on a synthetic timeline the clock is anchored to.
    let server_ahead: i64 = 250;
    let mut now: i64 = 1_000;
    let mut clock = PhaseLockedClock::new(
        config.phase_panic as i64,
        config.update_panic as i64,
        now,
    );

    assert!(clock.start());

    for _ in 0..3 {
        // Client sends; 20 us transit; server stamps receipt and, 10 us
        // later, departure; 20 us transit back.
        let t1 = now;
        let request = client.prepare_request(t1);
        let t2 = now + 20 + server_ahead;
        let t3 = t2 + 10;
        let reply_bytes = server
            .handle_datagram(&request.serialize(), t2, t3)
            .expect("server dropped a well-formed request");
        let t4 = now + 50;
        let sample = client
            .evaluate_reply(&request, &reply_bytes, t4)
            .expect("client discarded the matching reply")
            .expect("sample arithmetic overflowed");
        clock.on_sample(Some(sample.0), t4);
        now += 100_000;
    }

    assert!(clock.is_synchronized());
    // The corrected clock now reads within a few hundred microseconds of
    // the reference's clock at the same instant.
    let value = clock.get_value_at(now).expect("value while synchronized");
    let reference = now + server_ahead;
    assert!((value - reference).abs() < 500);

    clock.stop();
    assert!(!clock.should_continue());
    clock.mark_stopped();
    assert!(!clock.running);
}
