//! Behaviour of the frame-time ring buffer.

use ray_tracer::fps_counter::{FpsCounter, MAX_FRAME_TIMES};

/// After exactly one update with delta `dt`, the average FPS is the ratio
/// 1 / dt.
#[test]
fn single_update_average_fps_is_reciprocal() {
    let mut counter = FpsCounter::new();
    let dt: u64 = 16_000_000; // 16 ms in nanoseconds
    counter.update(dt);
    assert_eq!(counter.len(), 1);
    assert_eq!(counter.average_fps(), Some((1, dt as u128)));
    // As floating point: 1 / 0.016 s = 62.5 frames per second.
    let (frames, nanos) = counter.average_fps().unwrap();
    let fps = frames as f64 * 1e9 / nanos as f64;
    assert_eq!(fps, 62.5);
}

/// After capacity + 1 equal samples the buffer holds exactly `capacity`
/// entries and the average FPS still equals 1 / dt.
#[test]
fn capacity_overflow_evicts_oldest_and_keeps_average() {
    let mut counter = FpsCounter::new();
    let dt: u64 = 4_000_000;
    for _ in 0..MAX_FRAME_TIMES + 1 {
        counter.update(dt);
    }
    assert_eq!(counter.len(), MAX_FRAME_TIMES);
    let (frames, nanos) = counter.average_fps().unwrap();
    assert_eq!(frames, MAX_FRAME_TIMES as u64);
    assert_eq!(nanos, MAX_FRAME_TIMES as u128 * dt as u128);
    // frames / nanos == 1 / dt, by cross multiplication.
    assert_eq!(frames as u128 * dt as u128, nanos);
}

/// Eviction is strictly FIFO: once full, a new sample pushes out exactly
/// the oldest one.
#[test]
fn eviction_is_fifo() {
    let mut counter = FpsCounter::new();
    for _ in 0..MAX_FRAME_TIMES {
        counter.update(10);
    }
    counter.update(250);
    assert_eq!(counter.len(), MAX_FRAME_TIMES);
    let expected: u128 = (MAX_FRAME_TIMES as u128 - 1) * 10 + 250;
    assert_eq!(counter.total_nanos(), expected);
}

/// With fewer samples than the capacity, the average frame time is the
/// arithmetic mean of the samples actually held, not padded by
/// non-existent ones.
#[test]
fn partial_fill_average_frame_time_is_exact_mean() {
    let mut counter = FpsCounter::new();
    counter.update(10);
    counter.update(20);
    counter.update(40);
    // mean = 70 / 3, as an exact ratio
    assert_eq!(counter.average_frame_time(), Some((70, 3)));
}

/// With zero samples both averages are undefined and return the sentinel
/// rather than dividing by zero.
#[test]
fn empty_counter_returns_none() {
    let counter = FpsCounter::new();
    assert_eq!(counter.len(), 0);
    assert_eq!(counter.average_fps(), None);
    assert_eq!(counter.average_frame_time(), None);
}

/// All-zero deltas sum to zero: the FPS average is undefined (guarding the
/// division), while the frame-time average is zero.
#[test]
fn zero_deltas_guard_fps_division() {
    let mut counter = FpsCounter::new();
    counter.update(0);
    counter.update(0);
    assert_eq!(counter.average_fps(), None);
    assert_eq!(counter.average_frame_time(), Some((0, 2)));
}
