use unimidi::clock::{ClockState, POLL_INTERVAL};
use unimidi::colors::ColorTable;
use unimidi::engine::{
    resolve_transpose, Action, AudioEngine, DisplayEngine, DisplayOptions, EndLatch,
    NegativeTranspose, RESHUFFLE_ABOVE,
};
use unimidi::event::TimelineEvent;
use unimidi::keyboard::KEY_COUNT;
use unimidi::overlap::{Glyph, TrackError};
use unimidi::schedule::is_playable;

const SECOND: u64 = 1_000_000_000;

fn options(transpose: i32, black_keys: bool, exact_overlaps: bool) -> DisplayOptions {
    DisplayOptions { transpose, black_keys, exact_overlaps, reshuffle_on_wait: false }
}

fn on(delta: u64, key: u8, channel: u8) -> TimelineEvent {
    TimelineEvent::NoteOn { delta, key, channel, velocity: 100 }
}

fn off(delta: u64, key: u8, channel: u8) -> TimelineEvent {
    TimelineEvent::NoteOff { delta, key, channel }
}

/// Steps the engine through events that are all due, and hands back what each step gave.
fn draw(
    engine: &mut DisplayEngine,
    events: &Vec<TimelineEvent>,
    steps: usize,
) -> Vec<Result<Action, TrackError>> {
    assert!(is_playable(events));
    let clock = ClockState::new();
    let mut shared = Vec::new();
    (0..steps).map(|_| engine.step(events, &clock, u64::MAX, &mut shared)).collect()
}

fn delivered(count: usize) -> Vec<Result<Action, TrackError>> {
    vec![Ok(Action::Delivered(None)); count]
}

#[test]
fn identity_table_gives_each_channel_its_own_colour() {
    let table = ColorTable::identity();
    assert_eq!(table.to_vec(), (0..16u8).collect::<Vec<u8>>());
    for channel in 0..16u8 {
        assert_eq!(table.color_of(channel), channel);
    }
}

#[test]
fn reshuffle_deals_the_same_colours_in_another_order() {
    let mut table = ColorTable::identity();
    let mut moved = false;
    for _ in 0..8 {
        table.reshuffle();
        let mut sorted = table.to_vec();
        if sorted != (0..16u8).collect::<Vec<u8>>() {
            moved = true;
        }
        sorted.sort();
        assert_eq!(sorted, (0..16u8).collect::<Vec<u8>>());
    }
    // eight shuffles that all leave sixteen colours in place do not happen
    assert!(moved);
}

#[test]
fn new_engine_is_blank_at_the_start() {
    let engine = DisplayEngine::new(options(0, true, false), ColorTable::identity());
    assert_eq!(engine.cursor_time(), 0);
    assert_eq!(engine.delivered(), 0);
    assert_eq!(engine.color_table(), (0..16u8).collect::<Vec<u8>>());
    for slot in 0..KEY_COUNT {
        assert_eq!(engine.glyph(slot), Glyph::Blank);
        assert_eq!(engine.active(slot), 0);
    }
}

#[test]
fn note_on_draws_the_key_in_the_colour_of_its_channel() {
    let mut engine = DisplayEngine::new(options(0, true, false), ColorTable::identity());
    let events = vec![on(0, 60, 3), on(0, 61, 4)];
    assert_eq!(draw(&mut engine, &events, 1), delivered(1));
    assert_eq!(engine.glyph(60), Glyph::Note { color: 3, black: false });
    assert_eq!(engine.glyph(61), Glyph::Blank);
    assert_eq!(draw(&mut engine, &events, 1), delivered(1));
    assert_eq!(engine.glyph(61), Glyph::Note { color: 4, black: true });
    assert_eq!(engine.delivered(), 2);
}

#[test]
fn flat_colours_draw_no_black_keys() {
    let mut engine = DisplayEngine::new(options(0, false, false), ColorTable::identity());
    assert_eq!(draw(&mut engine, &vec![on(0, 61, 4)], 1), delivered(1));
    assert_eq!(engine.glyph(61), Glyph::Note { color: 4, black: false });
}

#[test]
fn transposed_note_moves_slot_and_pitch() {
    let mut engine = DisplayEngine::new(options(2, true, true), ColorTable::identity());
    let events = vec![on(0, 59, 1), on(0, 127, 2), off(0, 59, 1)];
    // key 59 sounds as 61, a C sharp, in slot 61
    assert_eq!(draw(&mut engine, &events, 1), delivered(1));
    assert_eq!(engine.glyph(59), Glyph::Blank);
    assert_eq!(engine.glyph(61), Glyph::Note { color: 1, black: true });
    // the last key wraps to the start of the keyboard
    assert_eq!(draw(&mut engine, &events, 1), delivered(1));
    assert_eq!(engine.glyph(1), Glyph::Note { color: 2, black: false });
    assert_eq!(draw(&mut engine, &events, 1), delivered(1));
    assert_eq!(engine.glyph(61), Glyph::Blank);
}

#[test]
fn exact_overlaps_show_the_last_remaining_voice() {
    let mut engine = DisplayEngine::new(options(0, true, true), ColorTable::identity());
    let events = vec![on(0, 60, 2), on(0, 60, 9), off(0, 60, 2), off(0, 60, 9)];
    assert_eq!(draw(&mut engine, &events, 3), delivered(3));
    assert_eq!(engine.glyph(60), Glyph::Note { color: 9, black: false });
    assert_eq!(engine.active(60), 1);
    assert_eq!(draw(&mut engine, &events, 1), delivered(1));
    assert_eq!(engine.glyph(60), Glyph::Blank);
    assert_eq!(engine.active(60), 0);
}

#[test]
fn unmatched_note_off_is_surfaced_and_passed_over() {
    let mut engine = DisplayEngine::new(options(0, true, true), ColorTable::identity());
    let events = vec![off(0, 60, 2), on(0, 60, 2), off(0, 60, 3), off(0, 60, 2)];
    assert_eq!(draw(&mut engine, &events, 1), vec![Err(TrackError::NoMatchingVoice)]);
    assert_eq!(engine.delivered(), 1);
    assert_eq!(engine.glyph(60), Glyph::Blank);
    assert_eq!(
        draw(&mut engine, &events, 2),
        vec![Ok(Action::Delivered(None)), Err(TrackError::NoMatchingVoice)]
    );
    assert_eq!(engine.glyph(60), Glyph::Note { color: 2, black: false });
    assert_eq!(engine.active(60), 1);
    assert_eq!(
        draw(&mut engine, &events, 2),
        vec![Ok(Action::Delivered(None)), Ok(Action::Finished)]
    );
    assert_eq!(engine.glyph(60), Glyph::Blank);
}

#[test]
fn plain_mode_takes_every_note_off() {
    let mut engine = DisplayEngine::new(options(0, true, false), ColorTable::identity());
    let events = vec![off(0, 60, 2), on(0, 60, 2), off(0, 60, 3)];
    assert_eq!(draw(&mut engine, &events, 3), delivered(3));
    assert_eq!(engine.glyph(60), Glyph::Blank);
    assert_eq!(engine.active(60), 0);
}

#[test]
fn other_events_leave_the_display() {
    let mut engine = DisplayEngine::new(options(0, true, true), ColorTable::identity());
    let events = vec![
        on(0, 60, 2),
        TimelineEvent::Other { delta: 0, message: Some(0x0040_07b0) },
        TimelineEvent::Other { delta: 0, message: None },
    ];
    assert_eq!(draw(&mut engine, &events, 1), delivered(1));
    let mut before = Vec::new();
    engine.publish(&mut before);
    assert_eq!(draw(&mut engine, &events, 2), delivered(2));
    let mut after = Vec::new();
    engine.publish(&mut after);
    assert_eq!(before, after);
    assert_eq!(after.len(), KEY_COUNT);
}

#[test]
fn delivery_copies_the_row_into_the_shared_buffer() {
    let mut engine = DisplayEngine::new(options(0, true, true), ColorTable::identity());
    let events = vec![
        on(0, 60, 2),
        off(0, 61, 2),
        off(0, 60, 2),
        TimelineEvent::Other { delta: 0, message: None },
    ];
    let clock = ClockState::new();
    let mut shared = vec![Glyph::Blank; KEY_COUNT];
    assert_eq!(engine.step(&events, &clock, 0, &mut shared), Ok(Action::Delivered(None)));
    assert_eq!(shared.len(), KEY_COUNT);
    assert_eq!(shared[60], Glyph::Note { color: 2, black: false });
    assert_eq!(shared[61], Glyph::Blank);
    // a refused note-off leaves the buffer alone
    let mut stale = vec![Glyph::Note { color: 1, black: true }];
    assert_eq!(engine.step(&events, &clock, 0, &mut stale), Err(TrackError::NoMatchingVoice));
    assert_eq!(stale, vec![Glyph::Note { color: 1, black: true }]);
    assert_eq!(engine.step(&events, &clock, 0, &mut shared), Ok(Action::Delivered(None)));
    assert!(shared.iter().all(|glyph| *glyph == Glyph::Blank));
    let mut fresh = Vec::new();
    assert_eq!(engine.step(&events, &clock, 0, &mut fresh), Ok(Action::Delivered(None)));
    assert_eq!(fresh, vec![Glyph::Blank; KEY_COUNT]);
    // the end of the timeline leaves it alone as well
    assert_eq!(engine.step(&events, &clock, 0, &mut stale), Ok(Action::Finished));
    assert_eq!(stale, vec![Glyph::Note { color: 1, black: true }]);
}

#[test]
fn note_sounds_at_once_and_ends_no_earlier_than_its_delta() {
    let events = vec![on(0, 60, 0), off(SECOND, 60, 0)];
    assert!(is_playable(&events));
    let clock = ClockState::new();
    let mut engine = DisplayEngine::new(options(0, true, false), ColorTable::identity());
    let mut shared = vec![Glyph::Blank; KEY_COUNT];
    let mut wall = 0u64;

    assert_eq!(engine.step(&events, &clock, wall, &mut shared), Ok(Action::Delivered(None)));
    assert_ne!(shared[60], Glyph::Blank);

    // the driver asks 1 ms after the start and is told to sleep out the rest of the second
    wall += 1_000_000;
    let action = engine.step(&events, &clock, wall, &mut shared);
    assert_eq!(action, Ok(Action::Sleep(999_000_000)));
    assert_ne!(shared[60], Glyph::Blank);
    if let Ok(Action::Sleep(wait)) = action {
        wall += wait as u64;
    }
    assert!(wall >= SECOND);
    assert_eq!(engine.step(&events, &clock, wall, &mut shared), Ok(Action::Delivered(None)));
    assert_eq!(shared[60], Glyph::Blank);
    assert_eq!(engine.cursor_time(), SECOND);
    assert_eq!(engine.step(&events, &clock, wall, &mut shared), Ok(Action::Finished));
}

#[test]
fn display_engine_accounts_for_its_pause_polls() {
    let events = vec![on(SECOND, 60, 0)];
    let mut engine = DisplayEngine::new(options(0, true, false), ColorTable::identity());
    let mut shared = Vec::new();
    let mut clock = ClockState::new();
    clock.toggle_pause();
    let mut wall = 0;
    for _ in 0..20 {
        assert_eq!(engine.step(&events, &clock, wall, &mut shared), Ok(Action::Poll));
        wall += POLL_INTERVAL;
        engine.polled(&mut clock);
    }
    assert_eq!(clock.skip_accumulated, 20 * POLL_INTERVAL);
    assert_eq!(clock.offset, 0);
    assert!(clock.paused);
    assert_eq!(engine.cursor_time(), 0);
    clock.toggle_pause();
    // two seconds were spent paused: the event is still a second away
    assert_eq!(engine.step(&events, &clock, wall, &mut shared), Ok(Action::Sleep(1_000_000_000)));
    assert_eq!(engine.step(&events, &clock, wall, &mut shared), Ok(Action::Delivered(None)));
}

#[test]
fn colours_are_dealt_anew_only_after_a_long_wait() {
    let wild = DisplayOptions {
        transpose: 0,
        black_keys: true,
        exact_overlaps: false,
        reshuffle_on_wait: true,
    };
    let clock = ClockState::new();
    let identity: Vec<u8> = (0..16u8).collect();
    let mut events = vec![on(RESHUFFLE_ABOVE as u64, 1, 1), on(1, 2, 2)];
    for _ in 0..8 {
        events.push(on(SECOND, 3, 3));
    }
    assert!(is_playable(&events));
    let mut shared = Vec::new();

    let mut engine = DisplayEngine::new(wild, ColorTable::identity());
    // exactly at the threshold nothing is dealt
    assert_eq!(engine.step(&events, &clock, 0, &mut shared), Ok(Action::Sleep(10_000_000)));
    assert_eq!(engine.step(&events, &clock, 0, &mut shared), Ok(Action::Delivered(None)));
    assert_eq!(engine.color_table(), identity);
    // behind schedule nothing is dealt
    assert_eq!(engine.step(&events, &clock, SECOND, &mut shared), Ok(Action::Delivered(None)));
    assert_eq!(engine.color_table(), identity);

    let mut moved = false;
    for _ in 0..8 {
        let action = engine.step(&events, &clock, 0, &mut shared);
        assert!(matches!(action, Ok(Action::Sleep(wait)) if wait > RESHUFFLE_ABOVE));
        let mut colors = engine.color_table();
        if colors != identity {
            moved = true;
        }
        colors.sort();
        assert_eq!(colors, identity);
        assert_eq!(engine.step(&events, &clock, 0, &mut shared), Ok(Action::Delivered(None)));
    }
    assert!(moved);
    assert_eq!(engine.step(&events, &clock, 0, &mut shared), Ok(Action::Finished));

    let mut calm = DisplayEngine::new(options(0, true, false), ColorTable::identity());
    let late = vec![on(SECOND, 3, 3)];
    assert_eq!(calm.step(&late, &clock, 0, &mut shared), Ok(Action::Sleep(1_000_000_000)));
    assert_eq!(calm.color_table(), identity);
}

#[test]
fn shuffled_colours_draw_the_notes() {
    let mut colors = ColorTable::identity();
    colors.reshuffle();
    let table = colors.to_vec();
    let mut engine = DisplayEngine::new(options(0, false, true), colors);
    let events: Vec<TimelineEvent> = (0..16u8).map(|channel| on(0, channel, channel)).collect();
    assert_eq!(draw(&mut engine, &events, 16), delivered(16));
    for channel in 0..16usize {
        assert_eq!(engine.glyph(channel), Glyph::Note { color: table[channel], black: false });
    }
}

#[test]
fn audio_engine_hands_out_one_write_per_message() {
    let events = vec![
        on(0, 60, 0),
        TimelineEvent::Other { delta: 0, message: None },
        TimelineEvent::Other { delta: SECOND, message: Some(0x0040_07b0) },
        off(SECOND, 60, 0),
    ];
    assert!(is_playable(&events));
    let mut clock = ClockState::new();
    let mut audio = AudioEngine::new(2);
    assert_eq!(audio.step(&events, &clock, 0), Action::Delivered(Some(0x0064_3e90)));
    assert_eq!(audio.step(&events, &clock, 0), Action::Delivered(None));
    assert_eq!(audio.step(&events, &clock, 400_000_000), Action::Sleep(600_000_000));
    assert_eq!(audio.schedule.pacer.cursor, SECOND);
    assert_eq!(audio.step(&events, &clock, SECOND), Action::Delivered(Some(0x0040_07b0)));
    clock.toggle_pause();
    assert_eq!(audio.step(&events, &clock, SECOND), Action::Poll);
    assert_eq!(audio.step(&events, &clock, 2 * SECOND), Action::Poll);
    assert_eq!(audio.schedule.pacer.cursor, SECOND);
    clock.toggle_pause();
    assert_eq!(audio.step(&events, &clock, 3 * SECOND), Action::Delivered(Some(0x0000_3e80)));
    assert_eq!(audio.schedule.pacer.cursor, 2 * SECOND);
    assert_eq!(audio.step(&events, &clock, 3 * SECOND), Action::Finished);
    assert_eq!(audio.step(&events, &clock, 9 * SECOND), Action::Finished);
    assert_eq!(audio.transpose, 2);
    assert_eq!(audio.schedule.next, 4);
}

#[test]
fn end_is_signalled_exactly_once() {
    let mut latch = EndLatch::new();
    assert!(!latch.has_ended());
    assert!(latch.signal());
    assert!(latch.has_ended());
    assert!(!latch.signal());
    assert!(!latch.signal());
    assert!(latch.has_ended());
}

#[test]
fn negative_transpose_is_reset_or_kept() {
    assert_eq!(resolve_transpose(-5, NegativeTranspose::Reset), 0);
    assert_eq!(resolve_transpose(-5, NegativeTranspose::Keep), -5);
    assert_eq!(resolve_transpose(7, NegativeTranspose::Reset), 7);
    assert_eq!(resolve_transpose(7, NegativeTranspose::Keep), 7);
    assert_eq!(resolve_transpose(0, NegativeTranspose::Reset), 0);
    assert_eq!(resolve_transpose(i32::MIN, NegativeTranspose::Reset), 0);
    assert_eq!(resolve_transpose(i32::MIN, NegativeTranspose::Keep), i32::MIN);
}
