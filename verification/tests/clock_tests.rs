use mp3_player::clock::Clock;

#[test]
fn fresh_clock_counts_from_its_start() {
    let c = Clock::new(10);
    assert_eq!(c.snapshot(10), 0);
    assert_eq!(c.snapshot(13), 3);
}

#[test]
fn pause_closes_the_interval() {
    let mut c = Clock::new(0);
    let total = c.on_pause(5);
    assert_eq!(total, 5);
    assert_eq!(c.snapshot(100), 5);
}

#[test]
fn two_cycles_add_their_intervals() {
    let mut c = Clock::new(0);
    assert_eq!(c.on_pause(2), 2);
    c.on_resume(10);
    assert_eq!(c.on_pause(13), 5);
    assert_eq!(c.snapshot(999), 5);
}

#[test]
fn pause_while_paused_changes_nothing() {
    let mut c = Clock::new(0);
    assert_eq!(c.on_pause(3), 3);
    assert_eq!(c.on_pause(9), 3);
    assert_eq!(c.snapshot(50), 3);
}

#[test]
fn negative_delta_clamps_to_zero() {
    let mut c = Clock::new(5);
    assert_eq!(c.on_pause(2), 0);
}

#[test]
fn snapshot_does_not_mutate() {
    let c = Clock::new(0);
    assert_eq!(c.snapshot(4), 4);
    assert_eq!(c.snapshot(4), 4);
    assert_eq!(c.snapshot(7), 7);
}

#[test]
fn accumulation_saturates_instead_of_overflowing() {
    let mut c = Clock {
        accumulated_seconds: u64::MAX - 1,
        last_resume_at: 0,
        running: true,
    };
    assert_eq!(c.on_pause(10), u64::MAX);
}

#[test]
fn zero_length_interval_is_valid() {
    let mut c = Clock::new(7);
    assert_eq!(c.on_pause(7), 0);
    c.on_resume(7);
    assert_eq!(c.on_pause(7), 0);
}
