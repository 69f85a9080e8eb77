use std::io::{self, Error};

use tcping::time::{Duration, Timestamp};
use tcping::tracker::{Info, IpAddress, Probe};
use tcping::user_input::UserInput;

struct ProbeBuilder {
    probe: Probe,
}

impl ProbeBuilder {
    fn new() -> ProbeBuilder {
        ProbeBuilder {
            probe: Probe {
                start: now(),
                elapsed: Duration::seconds(1),
                err: None,
                cycle_duration: Duration::seconds(1),
            },
        }
    }

    fn start(mut self, time: Timestamp) -> ProbeBuilder {
        self.probe.start = time;
        self
    }

    fn elapsed(mut self, elapsed: Duration) -> ProbeBuilder {
        self.probe.elapsed = elapsed;
        self
    }

    fn err(mut self, err: Error) -> ProbeBuilder {
        self.probe.err = Some(err);
        self
    }

    fn cycle_duration(mut self, cycle_duration: Duration) -> ProbeBuilder {
        self.probe.cycle_duration = cycle_duration;
        self
    }

    fn build(self) -> Probe {
        self.probe
    }
}

fn now() -> Timestamp {
    Timestamp::from_micros(chrono::Utc::now().timestamp_micros())
}

fn plus(t: Timestamp, secs: u64) -> Timestamp {
    t.checked_add(Duration::seconds(secs)).unwrap()
}

fn dummy_error() -> Error {
    io::Error::new(io::ErrorKind::AddrInUse, "error")
}

fn success() -> Probe {
    ProbeBuilder::new().build()
}

fn failure() -> Probe {
    ProbeBuilder::new().err(dummy_error()).build()
}

fn create_info_from_probes(probes: &[Probe]) -> Info {
    let mut info = Info::new(
        UserInput {
            url: "example.com".to_owned(),
            port: 443,
            timeout: Some(Duration::seconds(1)),
            probes_count: None,
            interval_between_probes: Duration::seconds(1),
        },
        IpAddress::V4([93, 184, 216, 34]),
    );
    for probe in probes {
        assert!(info.can_track(probe));
        info.track(probe);
    }
    info
}

fn create_info() -> Info {
    create_info_from_probes(&[])
}

fn check_counter() {
    let mut info = create_info();
    let success = &success();
    let failure = &failure();

    assert_eq!(info.succ_probes_streak, 0);
    assert_eq!(info.fail_probes_streak, 0);
    assert_eq!(info.succ_probes_counter, 0);
    assert_eq!(info.fail_probes_counter, 0);

    info.track(success);
    assert_eq!(info.succ_probes_streak, 1);
    assert_eq!(info.fail_probes_streak, 0);
    assert_eq!(info.succ_probes_counter, 1);
    assert_eq!(info.fail_probes_counter, 0);

    info.track(success);
    assert_eq!(info.succ_probes_streak, 2);
    assert_eq!(info.fail_probes_streak, 0);
    assert_eq!(info.succ_probes_counter, 2);
    assert_eq!(info.fail_probes_counter, 0);

    info.track(failure);
    assert_eq!(info.succ_probes_streak, 0);
    assert_eq!(info.fail_probes_streak, 1);
    assert_eq!(info.succ_probes_counter, 2);
    assert_eq!(info.fail_probes_counter, 1);

    info.track(failure);
    assert_eq!(info.succ_probes_streak, 0);
    assert_eq!(info.fail_probes_streak, 2);
    assert_eq!(info.succ_probes_counter, 2);
    assert_eq!(info.fail_probes_counter, 2);

    info.track(success);
    assert_eq!(info.succ_probes_streak, 1);
    assert_eq!(info.fail_probes_streak, 0);
    assert_eq!(info.succ_probes_counter, 3);
    assert_eq!(info.fail_probes_counter, 2);
}

fn check_single_succ() {
    let probes = [success()];
    let info = create_info_from_probes(&probes);
    assert_eq!(info.last_succ_probe, Some(probes[0].start));
    assert_eq!(info.last_fail_probe, None);
}

fn check_single_fail() {
    let probes = [failure()];
    let info = create_info_from_probes(&probes);
    assert_eq!(info.last_succ_probe, None);
    assert_eq!(info.last_fail_probe, Some(probes[0].start));
}

fn check_mult_succ() {
    let time = now();
    let probes = [
        ProbeBuilder::new().start(plus(time, 1)).build(),
        ProbeBuilder::new().start(plus(time, 2)).build(),
        ProbeBuilder::new().start(plus(time, 3)).build(),
    ];
    let info = create_info_from_probes(&probes);
    assert_eq!(info.last_succ_probe, Some(probes[2].start));
    assert_eq!(info.last_fail_probe, None);
}

fn check_mult_fail() {
    let time = now();
    let probes = [
        ProbeBuilder::new().start(plus(time, 1)).err(dummy_error()).build(),
        ProbeBuilder::new().start(plus(time, 2)).err(dummy_error()).build(),
        ProbeBuilder::new().start(plus(time, 3)).err(dummy_error()).build(),
    ];
    let info = create_info_from_probes(&probes);
    assert_eq!(info.last_succ_probe, None);
    assert_eq!(info.last_fail_probe, Some(probes[2].start));
}

fn check_mixed() {
    let time = now();
    let probes = [
        ProbeBuilder::new().start(plus(time, 1)).err(dummy_error()).build(),
        ProbeBuilder::new().start(plus(time, 2)).build(),
        ProbeBuilder::new().start(plus(time, 3)).err(dummy_error()).build(),
        ProbeBuilder::new().start(plus(time, 4)).build(),
        ProbeBuilder::new().start(plus(time, 5)).err(dummy_error()).build(),
    ];
    let info = create_info_from_probes(&probes);
    assert_eq!(info.last_succ_probe, Some(probes[3].start));
    assert_eq!(info.last_fail_probe, Some(probes[4].start));
}

fn check_total_uptime_downtime() {
    let probes = [
        ProbeBuilder::new().cycle_duration(Duration::seconds(2)).build(),
        ProbeBuilder::new().cycle_duration(Duration::seconds(3)).build(),
        ProbeBuilder::new().cycle_duration(Duration::seconds(2)).err(dummy_error()).build(),
        ProbeBuilder::new().cycle_duration(Duration::seconds(5)).build(),
        ProbeBuilder::new().cycle_duration(Duration::seconds(20)).err(dummy_error()).build(),
    ];
    let info = create_info_from_probes(&probes);
    assert_eq!(info.total_uptime, Duration::seconds(10));
    assert_eq!(info.total_downtime, Duration::seconds(22));
}

fn check_min_max_sum() {
    let probes = [
        ProbeBuilder::new().elapsed(Duration::seconds(3)).build(),
        ProbeBuilder::new().elapsed(Duration::seconds(1)).build(),
        ProbeBuilder::new().elapsed(Duration::seconds(20)).err(dummy_error()).build(),
        ProbeBuilder::new().elapsed(Duration::seconds(2)).build(),
    ];
    let info = create_info_from_probes(&probes);
    assert_eq!(info.min_rtt, Duration::seconds(1));
    assert_eq!(info.max_rtt, Duration::seconds(3));
    assert_eq!(info.sum_rtt, Duration::seconds(6));
}

fn check_start_end_time() {
    let time = now();
    let probes = [
        ProbeBuilder::new().start(plus(time, 1)).build(),
        ProbeBuilder::new().start(plus(time, 2)).build(),
        ProbeBuilder::new().start(plus(time, 3)).build(),
        ProbeBuilder::new()
            .start(plus(time, 4))
            .start(now())
            .elapsed(Duration::seconds(3))
            .build(),
    ];
    let info = create_info_from_probes(&probes);
    assert_eq!(info.start_time.unwrap(), probes[0].start);
    assert_eq!(
        info.end_time.unwrap(),
        probes[3].start.checked_add(probes[3].elapsed).unwrap()
    );
}

#[test]
fn tests_test_counter() {
    check_counter();
}

#[test]
fn tracker_test_counter() {
    check_counter();
}

#[test]
fn tests_test_last_succ_and_fail_single_succ() {
    check_single_succ();
}

#[test]
fn tracker_test_last_succ_and_fail_single_succ() {
    check_single_succ();
}

#[test]
fn tests_test_last_succ_and_fail_single_fail() {
    check_single_fail();
}

#[test]
fn tracker_test_last_succ_and_fail_single_fail() {
    check_single_fail();
}

#[test]
fn tests_test_last_succ_and_fail_mult_succ() {
    check_mult_succ();
}

#[test]
fn tracker_test_last_succ_and_fail_mult_succ() {
    check_mult_succ();
}

#[test]
fn tests_test_last_succ_and_fail_mult_fail() {
    check_mult_fail();
}

#[test]
fn tracker_test_last_succ_and_fail_mult_fail() {
    check_mult_fail();
}

#[test]
fn tests_test_last_succ_and_fail_mixed() {
    check_mixed();
}

#[test]
fn tracker_test_last_succ_and_fail_mixed() {
    check_mixed();
}

#[test]
fn tests_test_total_uptime_downtime() {
    check_total_uptime_downtime();
}

#[test]
fn tracker_test_total_uptime_downtime() {
    check_total_uptime_downtime();
}

#[test]
fn tests_test_min_max_sum() {
    check_min_max_sum();
}

#[test]
fn tracker_test_min_max_sum() {
    check_min_max_sum();
}

#[test]
fn tests_test_start_end_time() {
    check_start_end_time();
}

#[test]
fn tracker_test_start_end_time() {
    check_start_end_time();
}

#[test]
fn five_probe_run_aggregates() {
    let probes = [
        ProbeBuilder::new().elapsed(Duration::seconds(1)).cycle_duration(Duration::seconds(2)).build(),
        ProbeBuilder::new().elapsed(Duration::seconds(3)).cycle_duration(Duration::seconds(3)).build(),
        ProbeBuilder::new().cycle_duration(Duration::seconds(2)).err(dummy_error()).build(),
        ProbeBuilder::new().elapsed(Duration::seconds(2)).cycle_duration(Duration::seconds(5)).build(),
        ProbeBuilder::new().cycle_duration(Duration::seconds(20)).err(dummy_error()).build(),
    ];
    let info = create_info_from_probes(&probes);
    assert_eq!(info.succ_probes_counter, 3);
    assert_eq!(info.fail_probes_counter, 2);
    assert_eq!(info.total_uptime, Duration::seconds(10));
    assert_eq!(info.total_downtime, Duration::seconds(22));
    assert_eq!(info.min_rtt, Duration::seconds(1));
    assert_eq!(info.max_rtt, Duration::seconds(3));
    assert_eq!(info.sum_rtt, Duration::seconds(6));
    assert_eq!(info.fail_probes_streak, 1);
    assert_eq!(info.succ_probes_streak, 0);
}

#[test]
fn counters_add_up_to_probes_taken() {
    let probes = [success(), failure(), failure(), success(), failure(), success(), success()];
    let info = create_info_from_probes(&probes);
    assert_eq!(info.succ_probes_counter + info.fail_probes_counter, 7);
    assert_eq!(info.succ_probes_streak, 2);
    assert_eq!(info.fail_probes_streak, 0);
}

#[test]
fn latency_bounds_cover_every_success() {
    let millis = [40u64, 7, 13, 90, 7];
    let probes: Vec<Probe> = millis
        .iter()
        .map(|&ms| ProbeBuilder::new().elapsed(Duration::milliseconds(ms)).build())
        .collect();
    let info = create_info_from_probes(&probes);
    for p in &probes {
        assert!(info.min_rtt.micros <= p.elapsed.micros);
        assert!(p.elapsed.micros <= info.max_rtt.micros);
    }
    assert_eq!(info.min_rtt, Duration::milliseconds(7));
    assert_eq!(info.max_rtt, Duration::milliseconds(90));
    assert_eq!(info.sum_rtt, Duration::milliseconds(157));
}

#[test]
fn fresh_info_has_no_times() {
    let info = create_info();
    assert_eq!(info.start_time, None);
    assert_eq!(info.end_time, None);
    assert_eq!(info.last_succ_probe, None);
    assert_eq!(info.last_fail_probe, None);
    assert_eq!(info.total_uptime, Duration::zero());
    assert_eq!(info.total_downtime, Duration::zero());
}

#[test]
fn end_time_follows_the_last_probe() {
    let t = Timestamp::from_micros(1_000_000);
    let probes = [
        ProbeBuilder::new().start(t).elapsed(Duration::milliseconds(5)).build(),
        ProbeBuilder::new()
            .start(plus(t, 1))
            .elapsed(Duration::milliseconds(250))
            .err(dummy_error())
            .build(),
    ];
    let info = create_info_from_probes(&probes);
    assert_eq!(info.start_time, Some(t));
    assert_eq!(info.end_time, Some(Timestamp::from_micros(2_250_000)));
}

#[test]
fn can_track_refuses_an_overflowing_sum() {
    let mut info = create_info();
    let long = ProbeBuilder::new()
        .start(Timestamp::from_micros(0))
        .cycle_duration(Duration::microseconds(u64::MAX))
        .build();
    let too_long = ProbeBuilder::new()
        .start(Timestamp::from_micros(1))
        .elapsed(Duration::microseconds(u64::MAX))
        .build();
    assert!(!info.can_track(&too_long));
    assert!(info.can_track(&long));
    info.track(&long);
    let next = ProbeBuilder::new().start(Timestamp::from_micros(0)).build();
    assert!(!info.can_track(&next));
    let late = ProbeBuilder::new()
        .start(Timestamp::from_micros(i64::MAX))
        .err(dummy_error())
        .build();
    assert!(!info.can_track(&late));
    let fail = ProbeBuilder::new().start(Timestamp::from_micros(0)).err(dummy_error()).build();
    assert!(info.can_track(&fail));
}
