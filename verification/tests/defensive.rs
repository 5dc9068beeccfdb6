//! Tests for the runtime-checked stopwatch.

use fine_grained::Stopwatch;

#[test]
fn lib_new() {
    let stopwatch = Stopwatch::new();
    assert_eq!(stopwatch.laps(), &Vec::<u64>::new());
    assert!(!stopwatch.is_running());
    assert_eq!(stopwatch.total_time(), 0);
}

#[test]
fn lib_start_new() {
    let stopwatch = Stopwatch::start_new();
    assert_eq!(stopwatch.laps(), &Vec::<u64>::new());
    assert!(stopwatch.is_running());
    assert_eq!(stopwatch.number_of_laps(), 0);
}

#[test]
fn lib_start() {
    let mut stopwatch = Stopwatch::new();
    stopwatch.start();
    assert!(stopwatch.is_running());
}

#[test]
fn lib_lap() {
    let mut stopwatch = Stopwatch::start_new();
    let lap_1: u64 = stopwatch.lap();
    assert!(lap_1 > 0);
    assert_eq!(stopwatch.laps().len(), 1);
    assert_eq!(stopwatch.laps()[0], lap_1);

    let lap_2: u64 = stopwatch.lap();
    assert!(lap_2 > 0);
    assert_eq!(stopwatch.laps().len(), 2);
    assert_eq!(stopwatch.laps()[0], lap_1);
    assert_eq!(stopwatch.laps()[1], lap_2);

    stopwatch.stop();
    assert_eq!(stopwatch.total_time(), lap_1 + lap_2);
}

#[test]
fn lib_stop() {
    let mut stopwatch = Stopwatch::start_new();
    let lap: u64 = stopwatch.lap();
    stopwatch.stop();
    assert!(!stopwatch.is_running());
    assert_eq!(stopwatch.laps().len(), 1);
    assert_eq!(stopwatch.total_time(), lap);
}

#[test]
fn lib_reset() {
    let mut stopwatch = Stopwatch::start_new();
    stopwatch.lap();
    stopwatch.reset();
    assert_eq!(stopwatch.laps(), &Vec::<u64>::new());
    assert!(!stopwatch.is_running());
    assert_eq!(stopwatch.total_time(), 0);
}

#[test]
fn lib_restart() {
    let mut stopwatch = Stopwatch::start_new();
    stopwatch.lap();
    stopwatch.restart();
    assert_eq!(stopwatch.laps(), &Vec::<u64>::new());
    assert!(stopwatch.is_running());
    assert_eq!(stopwatch.number_of_laps(), 0);
}

#[test]
fn lib_total_time() {
    let mut stopwatch = Stopwatch::start_new();
    let total_time: u64 = stopwatch.total_time();
    assert!(total_time > 0);
    assert_eq!(stopwatch.laps(), &Vec::<u64>::new());
    assert!(stopwatch.is_running());

    let lap: u64 = stopwatch.lap();
    stopwatch.stop();
    assert_eq!(stopwatch.total_time(), lap);
}

#[test]
fn lib_laps() {
    let mut stopwatch = Stopwatch::start_new();
    let lap_1: u64 = stopwatch.lap();
    let lap_2: u64 = stopwatch.lap();
    let lap_3: u64 = stopwatch.lap();

    assert_eq!(stopwatch.laps(), &vec![lap_1, lap_2, lap_3]);
}

#[test]
fn lib_number_of_laps() {
    let mut stopwatch = Stopwatch::start_new();
    stopwatch.lap();
    stopwatch.lap();
    stopwatch.lap();

    assert_eq!(stopwatch.number_of_laps(), 3);
}

#[test]
fn lib_is_running() {
    let mut stopwatch = Stopwatch::new();
    assert!(!stopwatch.is_running());

    stopwatch.start();
    assert!(stopwatch.is_running());
}

#[test]
fn lib_fmt_display() {
    let mut stopwatch = Stopwatch::new();
    stopwatch.start_at(0);
    let lap = stopwatch.lap_at(42);
    stopwatch.stop();
    assert_eq!(lap, 42);
    assert_eq!(stopwatch.render(), "42ns");
}
