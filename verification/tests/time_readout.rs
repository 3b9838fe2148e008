use mini_shrewd::clock::{clock_readout, run_time_log, ClockReadout, MAX_READOUT_SECS, MAX_READOUT_SUBSEC_NANOS};
use mini_shrewd::timer::TickTimer;

#[test]
fn timer_waits_for_its_period() {
    let mut t = TickTimer::new(1000);
    assert!(!t.tick(400));
    assert!(!t.tick(500));
    assert!(t.tick(100));
    assert_eq!(t.elapsed_ms, 0);
}

#[test]
fn timer_keeps_the_remainder() {
    let mut t = TickTimer::new(1000);
    assert!(t.tick(1700));
    assert_eq!(t.elapsed_ms, 700);
    assert!(t.tick(300));
    assert_eq!(t.elapsed_ms, 0);
}

#[test]
fn timer_spanning_several_periods_finishes_once() {
    let mut t = TickTimer::new(1000);
    assert!(t.tick(3250));
    assert_eq!(t.elapsed_ms, 250);
}

#[test]
fn readout_splits_hours_minutes_seconds() {
    assert_eq!(
        clock_readout(3661, 0),
        Some(ClockReadout { hours: 1, minutes: 1, seconds: 1 })
    );
    assert_eq!(
        clock_readout(0, 999_999_999),
        Some(ClockReadout { hours: 0, minutes: 0, seconds: 0 })
    );
    assert_eq!(
        clock_readout(86_399, 0),
        Some(ClockReadout { hours: 23, minutes: 59, seconds: 59 })
    );
}

#[test]
fn readout_range_boundary() {
    assert!(clock_readout(MAX_READOUT_SECS, MAX_READOUT_SUBSEC_NANOS).is_some());
    assert_eq!(clock_readout(MAX_READOUT_SECS, MAX_READOUT_SUBSEC_NANOS + 1), None);
    assert_eq!(clock_readout(MAX_READOUT_SECS + 1, 0), None);
}

#[test]
fn readout_agrees_with_chrono() {
    let cases: [(u64, u32); 6] = [
        (0, 0),
        (59, 999_999_999),
        (60, 0),
        (3661, 500_000_000),
        (123_456_789, 1),
        (MAX_READOUT_SECS, MAX_READOUT_SUBSEC_NANOS),
    ];
    for (secs, nanos) in cases {
        let run = chrono::TimeDelta::from_std(std::time::Duration::new(secs, nanos))
            .expect("within range");
        let readout = clock_readout(secs, nanos).expect("within range");
        assert_eq!(readout.hours as i64, run.num_hours());
        assert_eq!(readout.minutes as i64, run.num_minutes() % 60);
        assert_eq!(readout.seconds as i64, run.num_seconds() % 60);
    }
}

#[test]
fn readout_rejects_what_chrono_rejects() {
    let cases: [(u64, u32); 3] = [
        (MAX_READOUT_SECS, MAX_READOUT_SUBSEC_NANOS + 1),
        (MAX_READOUT_SECS + 1, 0),
        (u64::MAX, 999_999_999),
    ];
    for (secs, nanos) in cases {
        let rejected = chrono::TimeDelta::from_std(std::time::Duration::new(secs, nanos)).is_err();
        assert!(rejected);
        assert_eq!(clock_readout(secs, nanos), None);
    }
}

#[test]
fn run_time_logs_only_on_finished_ticks() {
    let mut t = TickTimer::new(1000);
    assert_eq!(run_time_log(&mut t, 400, 0, 400_000_000), None);
    assert_eq!(
        run_time_log(&mut t, 600, 1, 0),
        Some(ClockReadout { hours: 0, minutes: 0, seconds: 1 })
    );
    assert_eq!(run_time_log(&mut t, 999, 1, 999_000_000), None);
    assert_eq!(
        run_time_log(&mut t, 1, 2, 0),
        Some(ClockReadout { hours: 0, minutes: 0, seconds: 2 })
    );
}

#[test]
fn run_time_log_skips_out_of_range_durations() {
    let mut t = TickTimer::new(1000);
    assert_eq!(run_time_log(&mut t, 1000, MAX_READOUT_SECS + 1, 0), None);
    // The timer still advanced past its period.
    assert_eq!(t.elapsed_ms, 0);
}
