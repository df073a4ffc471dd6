use unimidi::clock::{ClockState, Pacer, PlaybackKey, Step, POLL_INTERVAL, SKIP_STEP};

const SECOND: u64 = 1_000_000_000;

#[test]
fn constants_are_a_tenth_of_a_second_and_three_seconds() {
    assert_eq!(POLL_INTERVAL, 100_000_000);
    assert_eq!(SKIP_STEP, 3_000_000_000);
}

#[test]
fn new_clock_runs_with_nothing_skipped() {
    let clock = ClockState::new();
    assert!(!clock.is_paused());
    assert_eq!(clock.skip_accumulated, 0);
    assert_eq!(clock.offset, 0);
    assert_eq!(clock.required(0), 0);
    assert_eq!(clock.required(5 * SECOND), 5_000_000_000);
}

#[test]
fn required_time_adds_the_offset_and_leaves_out_the_pause() {
    let clock = ClockState { paused: false, skip_accumulated: 700_000_000, offset: 3 * SECOND };
    assert_eq!(clock.required(10 * SECOND), 12_300_000_000);
    let early = ClockState { paused: false, skip_accumulated: 2 * SECOND, offset: 0 };
    assert_eq!(early.required(SECOND), -1_000_000_000);
    let wide = ClockState { paused: true, skip_accumulated: u64::MAX, offset: 0 };
    assert_eq!(wide.required(0), -(u64::MAX as i128));
    let far = ClockState { paused: true, skip_accumulated: 0, offset: u64::MAX };
    assert_eq!(far.required(u64::MAX), 2 * (u64::MAX as i128));
}

#[test]
fn cursor_is_the_sum_of_the_deltas() {
    let deltas = [250_000_000u64, 1, 0, 999_999_999, 3 * SECOND, 0, 41];
    let mut pacer = Pacer::new();
    let mut sum = 0u64;
    let mut wall = 0u64;
    let mut clock = ClockState::new();
    for (n, delta) in deltas.iter().enumerate() {
        // the wall clock and the offset wander, the position must not care
        wall += 123_456_789 * n as u64;
        if n == 3 {
            clock.skip_ahead();
        }
        pacer.begin(*delta, &clock, wall);
        sum += delta;
        assert_eq!(pacer.cursor, sum);
    }
    assert_eq!(pacer.cursor, 4_250_000_041);
}

#[test]
fn engine_ahead_sleeps_the_difference() {
    let clock = ClockState::new();
    let mut pacer = Pacer::new();
    assert_eq!(pacer.begin(SECOND, &clock, 250_000_000), Step::Sleep(750_000_000));
    assert_eq!(pacer.cursor, SECOND);
}

#[test]
fn engine_on_time_or_behind_delivers_at_once() {
    let clock = ClockState::new();
    let mut pacer = Pacer::new();
    assert_eq!(pacer.begin(SECOND, &clock, SECOND), Step::Deliver);
    assert_eq!(pacer.begin(SECOND, &clock, 5 * SECOND), Step::Deliver);
    assert_eq!(pacer.cursor, 2 * SECOND);
}

#[test]
fn event_without_delta_is_not_paced() {
    let mut clock = ClockState::new();
    clock.toggle_pause();
    let mut pacer = Pacer { cursor: 9 * SECOND };
    assert_eq!(pacer.begin(0, &clock, 0), Step::Deliver);
    assert_eq!(pacer.cursor, 9 * SECOND);
}

#[test]
fn paused_clock_holds_the_engine() {
    let mut clock = ClockState::new();
    clock.toggle_pause();
    let mut pacer = Pacer::new();
    assert_eq!(pacer.begin(SECOND, &clock, 0), Step::Poll);
    assert_eq!(pacer.begin(SECOND, &clock, 7 * SECOND), Step::Poll);
    assert_eq!(pacer.cursor, 0);
    clock.toggle_pause();
    assert_eq!(pacer.begin(SECOND, &clock, 0), Step::Sleep(1_000_000_000));
    assert_eq!(pacer.cursor, SECOND);
}

#[test]
fn pause_is_left_out_of_the_required_time() {
    let mut clock = ClockState::new();
    let before = clock.required(2 * SECOND);
    clock.toggle_pause();
    for _ in 0..25 {
        clock.absorb_poll();
    }
    clock.toggle_pause();
    // 2.5 s of pause and 0.1 s of play later
    let after = clock.required(2 * SECOND + 2_600_000_000);
    assert_eq!(clock.skip_accumulated, 2_500_000_000);
    assert_eq!(after - before, 100_000_000);
    assert_ne!(after - before, 2_600_000_000);
}

#[test]
fn resumed_engine_waits_as_if_no_time_had_passed() {
    let mut clock = ClockState::new();
    let mut pacer = Pacer::new();
    assert_eq!(pacer.begin(SECOND, &clock, 0), Step::Sleep(1_000_000_000));
    clock.toggle_pause();
    let mut wall = SECOND;
    for _ in 0..10 {
        assert_eq!(pacer.begin(SECOND, &clock, wall), Step::Poll);
        wall += POLL_INTERVAL;
        clock.absorb_poll();
    }
    clock.toggle_pause();
    assert_eq!(pacer.begin(SECOND, &clock, wall), Step::Sleep(1_000_000_000));
}

#[test]
fn skip_ahead_makes_the_engine_catch_up_without_sleep() {
    let mut clock = ClockState::new();
    let mut pacer = Pacer::new();
    clock.skip_ahead();
    assert_eq!(clock.offset, 3_000_000_000);
    assert_eq!(pacer.begin(SECOND, &clock, 0), Step::Deliver);
    assert_eq!(pacer.begin(SECOND, &clock, 0), Step::Deliver);
    assert_eq!(pacer.begin(SECOND, &clock, 0), Step::Deliver);
    // equilibrium is back: the fourth second lies ahead again
    assert_eq!(pacer.begin(SECOND, &clock, 0), Step::Sleep(1_000_000_000));
}

#[test]
fn keys_of_the_listener_drive_the_clock() {
    let mut clock = ClockState::new();
    clock.press(PlaybackKey::TogglePause);
    assert!(clock.paused);
    clock.press(PlaybackKey::Other);
    assert_eq!(clock, ClockState { paused: true, skip_accumulated: 0, offset: 0 });
    clock.press(PlaybackKey::SkipAhead);
    clock.press(PlaybackKey::SkipAhead);
    assert_eq!(clock, ClockState { paused: true, skip_accumulated: 0, offset: 6_000_000_000 });
    clock.press(PlaybackKey::TogglePause);
    assert!(!clock.paused);
}

#[test]
fn wait_can_exceed_sixty_four_bits() {
    let clock = ClockState { paused: false, skip_accumulated: u64::MAX, offset: 0 };
    let mut pacer = Pacer { cursor: u64::MAX - 1 };
    assert_eq!(pacer.begin(1, &clock, 0), Step::Sleep(2 * (u64::MAX as u128)));
}
