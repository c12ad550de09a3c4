use clockkit::config::Config;
use clockkit::plc::PhaseLockedClock;
use clockkit::vclock::{MAX_FREQUENCY, MIN_FREQUENCY, NOMINAL_FREQUENCY};
use clockkit::Error;

#[test]
fn fresh_clock_is_out_of_sync() {
    let c = Config::default().build_clock();
    assert!(!c.is_synchronized());
    assert_eq!(c.get_value_at(1000), Err(Error::OutOfSync));
    assert_eq!(c.get_offset(), Err(Error::OutOfSync));
    assert_eq!(c.get_value(), Err(Error::OutOfSync));
}

#[test]
fn small_offset_slews() {
    let mut c = PhaseLockedClock::new(5000, 5_000_000, 1000);
    c.on_sample(Some(100), 2000);
    assert!(c.is_synchronized());
    assert_eq!(c.get_offset(), Ok(100));
    // The rate was nudged by the offset; the reading did not jump.
    assert_eq!(c.clock.frequency, NOMINAL_FREQUENCY + 100);
    assert_eq!(c.get_value_at(2000), Ok(2000));
    // One real second later the nudge has slewed 100 us in.
    assert_eq!(c.get_value_at(1_002_000), Ok(1_002_100));
}

#[test]
fn large_offset_jumps() {
    let mut c = PhaseLockedClock::new(5000, 5_000_000, 1000);
    c.on_sample(Some(70_000), 2000);
    assert!(c.is_synchronized());
    // The whole offset was applied at once and the rate left alone.
    assert_eq!(c.clock.frequency, NOMINAL_FREQUENCY);
    assert_eq!(c.get_value_at(2000), Ok(72_000));
    assert_eq!(c.get_offset(), Ok(70_000));
}

#[test]
fn negative_offset_jumps_down() {
    let mut c = PhaseLockedClock::new(5000, 5_000_000, 1000);
    c.on_sample(Some(-70_000), 2000);
    assert_eq!(c.clock.frequency, NOMINAL_FREQUENCY);
    assert_eq!(c.get_value_at(2000), Ok(2000 - 70_000));
}

#[test]
fn frequency_nudge_is_clamped() {
    let mut c = PhaseLockedClock::new(500_000, 5_000_000, 0);
    c.on_sample(Some(400_000), 0);
    assert_eq!(c.clock.frequency, MAX_FREQUENCY);
    c.on_sample(Some(-400_000), 0);
    assert_eq!(c.clock.frequency, MIN_FREQUENCY);
}

#[test]
fn failed_sample_keeps_state() {
    let mut c = PhaseLockedClock::new(5000, 5_000_000, 1000);
    c.on_sample(Some(10), 2000);
    assert!(c.is_synchronized());
    // A failure within the update-panic window changes nothing.
    c.on_sample(None, 3000);
    assert!(c.is_synchronized());
    assert_eq!(c.get_offset(), Ok(10));
}

#[test]
fn update_panic_goes_stale() {
    let mut c = PhaseLockedClock::new(5000, 5_000_000, 1000);
    c.on_sample(Some(10), 2000);
    assert!(c.is_synchronized());
    // Silence one microsecond past the threshold withdraws trust, even
    // though the last sample was small.
    c.on_sample(None, 2000 + 5_000_000 + 1);
    assert!(!c.is_synchronized());
    assert_eq!(c.get_value_at(7_100_000), Err(Error::OutOfSync));
    // A later successful sample recovers synchronization.
    c.on_sample(Some(5), 8_000_000);
    assert!(c.is_synchronized());
}

#[test]
fn thresholds_take_effect() {
    let mut c = PhaseLockedClock::new(5000, 5_000_000, 1000);
    c.set_phase_panic(50);
    // 100 us now exceeds the phase panic: it is jumped, not slewed.
    c.on_sample(Some(100), 2000);
    assert_eq!(c.clock.frequency, NOMINAL_FREQUENCY);
    assert_eq!(c.get_value_at(2000), Ok(2100));
    c.set_update_panic(10);
    c.on_sample(None, 2020);
    assert!(!c.is_synchronized());
}

#[test]
fn start_twice_spawns_once() {
    let mut c = Config::default().build_clock();
    assert!(c.start()); // the first start asks for a loop
    assert!(!c.start()); // the second finds one running and is a no-op
    assert!(c.running);
}

#[test]
fn stop_twice_is_safe() {
    let mut c = Config::default().build_clock();
    c.start();
    assert!(c.should_continue());
    c.stop();
    assert!(!c.should_continue());
    c.stop();
    assert!(!c.should_continue());
    c.mark_stopped();
    assert!(!c.running);
}

#[test]
fn build_clock_takes_config_thresholds() {
    let c = Config::default().phase_panic(7).update_panic(9).build_clock();
    assert_eq!(c.phase_panic_micros, 7);
    assert_eq!(c.update_panic_micros, 9);
    assert!(!c.running);
    assert!(!c.cancel_requested);
}
