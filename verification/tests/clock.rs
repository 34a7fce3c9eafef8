use frameloop::time::NANOS_PER_SEC;
use frameloop::Time;

const MILLI: u64 = 1_000_000;

#[test]
fn delta_tracks_synthetic_durations() {
    let mut clock = Time::new(0);
    assert_eq!(clock.delta_time(), 0);

    let d1 = clock.tick(100 * MILLI);
    assert_eq!(d1, 100 * MILLI);
    assert_eq!(clock.delta_time(), 100 * MILLI);

    let d2 = clock.tick(250 * MILLI);
    assert_eq!(d2, 150 * MILLI);
    assert_eq!(clock.delta_time(), 150 * MILLI);
}

#[test]
fn first_delta_counts_from_construction() {
    let mut clock = Time::new(40 * MILLI);
    let d = clock.tick(90 * MILLI);
    assert_eq!(d, 50 * MILLI);
}

#[test]
fn fps_reports_ticks_of_completed_window() {
    let mut clock = Time::new(0);
    clock.tick(200 * MILLI);
    clock.tick(400 * MILLI);
    clock.tick(600 * MILLI);
    assert_eq!(clock.fps(), 0);
    assert_eq!(clock.frame_count(), 3);

    // The first tick at or past the one-second mark publishes the count.
    clock.tick(1200 * MILLI);
    assert_eq!(clock.fps(), 3);
    assert_eq!(clock.frame_count(), 1);
}

#[test]
fn fps_holds_between_windows() {
    let mut clock = Time::new(0);
    clock.tick(500 * MILLI);
    clock.tick(NANOS_PER_SEC);
    assert_eq!(clock.fps(), 1);

    // Inside the next window the published value is untouched.
    clock.tick(NANOS_PER_SEC + 300 * MILLI);
    assert_eq!(clock.fps(), 1);

    // The next completed window publishes its own count.
    clock.tick(2 * NANOS_PER_SEC + 100 * MILLI);
    assert_eq!(clock.fps(), 2);
}

#[test]
fn zero_elapsed_tick_has_zero_delta() {
    let mut clock = Time::new(7);
    let d = clock.tick(7);
    assert_eq!(d, 0);
    assert_eq!(clock.frame_count(), 1);
}
