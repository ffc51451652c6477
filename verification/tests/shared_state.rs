use musica::backend::state::{readback, BackgroundLoopEvent, BackgroundState, PlaybackPosition};
use std::sync::atomic::Ordering;

#[test]
fn new_cells_hold_the_given_position() {
    let position = PlaybackPosition { logical_index: 4, physical_index: 9, shuffle_enabled: true };
    let shared = BackgroundState::new(position);
    assert_eq!(shared.snapshot(), position);
    assert_eq!(shared.current_index.load(Ordering::Acquire), 4);
    assert_eq!(shared.current_music_index.load(Ordering::Acquire), 9);
    assert!(shared.is_random_mode.load(Ordering::Acquire));
}

#[test]
fn publish_is_seen_through_a_clone() {
    let shared = BackgroundState::new(PlaybackPosition {
        logical_index: 0,
        physical_index: 0,
        shuffle_enabled: false,
    });
    let reader = shared.clone();
    let position = PlaybackPosition { logical_index: 2, physical_index: 5, shuffle_enabled: true };
    shared.publish(position);
    assert_eq!(reader.snapshot(), position);
    assert_eq!(reader.current_physical_index(6), Some(5));
}

#[test]
fn current_physical_index_is_none_for_an_empty_catalog() {
    let shared = BackgroundState::new(PlaybackPosition {
        logical_index: 0,
        physical_index: 0,
        shuffle_enabled: false,
    });
    assert_eq!(shared.current_physical_index(0), None);
    assert_eq!(shared.current_physical_index(1), Some(0));
}

#[test]
fn current_physical_index_never_leaves_the_catalog() {
    let shared = BackgroundState::new(PlaybackPosition {
        logical_index: 7,
        physical_index: 7,
        shuffle_enabled: false,
    });
    assert_eq!(shared.current_physical_index(7), None);
    assert_eq!(shared.current_physical_index(8), Some(7));
}

#[test]
fn readback_checks_the_index_against_the_catalog() {
    assert_eq!(readback(0, 0), None);
    assert_eq!(readback(0, 1), Some(0));
    assert_eq!(readback(2, 3), Some(2));
    assert_eq!(readback(3, 3), None);
    assert_eq!(readback(usize::MAX, usize::MAX), None);
}

#[test]
fn or_tick_keeps_a_command_and_fills_in_a_tick() {
    assert_eq!(BackgroundLoopEvent::or_tick(None), BackgroundLoopEvent::Tick);
    assert_eq!(
        BackgroundLoopEvent::or_tick(Some(BackgroundLoopEvent::Next)),
        BackgroundLoopEvent::Next
    );
    assert_eq!(
        BackgroundLoopEvent::or_tick(Some(BackgroundLoopEvent::ShuffleToggled(true))),
        BackgroundLoopEvent::ShuffleToggled(true)
    );
}
