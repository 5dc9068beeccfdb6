//! Scenario and property tests, mostly with synthetic clock readings so the
//! expected values are exact.

use fine_grained::Stopwatch;

const MS: u64 = 1_000_000;

#[test]
fn scenario_three_laps() {
    let mut stopwatch = Stopwatch::new();
    stopwatch.start_at(0);
    let lap_1 = stopwatch.lap_at(40 * MS);
    let lap_2 = stopwatch.lap_at(110 * MS);
    let lap_3 = stopwatch.lap_at(210 * MS);
    stopwatch.stop();

    assert_eq!(lap_1, 40 * MS);
    assert_eq!(lap_2, 70 * MS);
    assert_eq!(lap_3, 100 * MS);
    assert_eq!(stopwatch.number_of_laps(), 3);
    assert_eq!(stopwatch.laps(), &vec![40 * MS, 70 * MS, 100 * MS]);
    assert_eq!(stopwatch.total_time(), 210 * MS);
}

#[test]
fn scenario_ten_laps() {
    let mut stopwatch = Stopwatch::new();
    stopwatch.start_at(0);
    let mut now: u64 = 0;
    for _ in 0..10 {
        now += 50 * MS;
        let lap = stopwatch.lap_at(now);
        assert_eq!(lap, 50 * MS);
    }
    stopwatch.stop();

    assert_eq!(stopwatch.number_of_laps(), 10);
    for &lap in stopwatch.laps() {
        assert_eq!(lap, 50 * MS);
    }
    assert_eq!(stopwatch.total_time(), 500 * MS);
}

#[test]
fn lap_on_unstarted_stopwatch() {
    let mut stopwatch = Stopwatch::new();
    let lap = stopwatch.lap();
    assert_eq!(lap, 0);
    assert_eq!(stopwatch.number_of_laps(), 0);
    assert_eq!(stopwatch.laps(), &Vec::<u64>::new());
    assert!(!stopwatch.is_running());
    assert_eq!(stopwatch.total_time(), 0);
}

#[test]
fn stop_on_unstarted_stopwatch_is_noop() {
    let mut stopwatch = Stopwatch::new();
    stopwatch.stop();
    assert!(!stopwatch.is_running());
    assert_eq!(stopwatch.number_of_laps(), 0);
    assert_eq!(stopwatch.total_time(), 0);
}

#[test]
fn total_is_sum_of_returned_laps() {
    let mut stopwatch = Stopwatch::start_new();
    let mut sum: u64 = 0;
    for _ in 0..5 {
        sum += stopwatch.lap();
    }
    stopwatch.stop();
    assert_eq!(stopwatch.total_time(), sum);
}

#[test]
fn total_time_monotonic_while_running() {
    let mut stopwatch = Stopwatch::new();
    stopwatch.start_at(0);
    let early = stopwatch.total_time_at(10 * MS);
    let late = stopwatch.total_time_at(25 * MS);
    assert_eq!(early, 10 * MS);
    assert_eq!(late, 25 * MS);
    assert!(early <= late);

    let a = stopwatch.total_time();
    let b = stopwatch.total_time();
    assert!(a <= b);
}

#[test]
fn pause_resume_round_trip() {
    let stopwatch = fine_grained::stopwatch::Stopwatch::new();
    let mut stopwatch = stopwatch.start_at(1_000);
    let lap_1 = stopwatch.lap_at(1_000 + 40 * MS);
    // The open lap runs 70 ms, then the stopwatch sits paused for a long time.
    let paused = stopwatch.pause_at(1_000 + 110 * MS);
    let resumed = paused.resume_at(999_000_000_000_000);
    // The reopened lap runs 100 ms more before it is closed.
    let (lap_2, stopped) = resumed.lap_and_stop_at(999_000_000_000_000 + 100 * MS);

    assert_eq!(lap_1, 40 * MS);
    assert_eq!(lap_2, 170 * MS);
    assert_eq!(stopped.laps(), &vec![40 * MS, 170 * MS]);
    assert_eq!(stopped.total_time(), 210 * MS);
}

#[test]
fn paused_lap_is_flushed_on_stop() {
    let stopwatch = fine_grained::stopwatch::Stopwatch::new();
    let stopwatch = stopwatch.start_at(0);
    let paused = stopwatch.pause_at(60 * MS);
    // While paused, the held lap is neither listed nor counted.
    assert_eq!(paused.number_of_laps(), 0);
    assert_eq!(paused.total_time(), 0);
    let stopped = paused.stop();
    assert_eq!(stopped.laps(), &vec![60 * MS]);
    assert_eq!(stopped.total_time(), 60 * MS);
}

#[test]
fn fresh_lap_is_discarded_on_stop() {
    let stopwatch = fine_grained::stopwatch::Stopwatch::new();
    let stopwatch = stopwatch.start_at(0);
    let (lap, paused) = stopwatch.lap_and_pause_at(30 * MS);
    assert_eq!(lap, 30 * MS);
    let stopped = paused.stop();
    assert_eq!(stopped.laps(), &vec![30 * MS]);
    assert_eq!(stopped.total_time(), 30 * MS);
}

#[test]
fn lap_duration_is_capped_at_total_headroom() {
    let mut stopwatch = Stopwatch::new();
    stopwatch.start_at(0);
    let lap_1 = stopwatch.lap_at(u64::MAX);
    assert_eq!(lap_1, u64::MAX);
    let lap_2 = stopwatch.lap_at(u64::MAX);
    assert_eq!(lap_2, 0);
    stopwatch.stop();
    assert_eq!(stopwatch.total_time(), u64::MAX);
}

#[test]
fn render_zero_and_large() {
    assert_eq!(fine_grained::render::format_ns(0), "0ns");
    assert_eq!(fine_grained::render::format_ns(42), "42ns");
    assert_eq!(fine_grained::render::format_ns(1_000_000_007), "1000000007ns");
    assert_eq!(
        fine_grained::render::format_ns(u64::MAX),
        "18446744073709551615ns"
    );
}

#[test]
fn render_on_fresh_stopwatch() {
    let stopwatch = Stopwatch::new();
    assert_eq!(stopwatch.render(), "0ns");
    let typed = fine_grained::stopwatch::Stopwatch::new();
    assert_eq!(typed.render(), "0ns");
}
