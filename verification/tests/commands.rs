//! The operator command surface: keys against tempo, run state, taps,
//! and the manual-entry editor.

use metronome::state::MetronomeState;
use metronome::tempo::TempoStore;
use metronome::ui::{AppState, Key};

#[test]
fn k_raises_the_tempo_by_one_bpm() {
    let mut app = AppState::new(60_000, MetronomeState::Running);
    let mut store = TempoStore::new(60_000);
    let ns = app.handle_key_event(Key::Char('k'), &mut store, MetronomeState::Running, 0);
    assert_eq!(ns, None);
    assert_eq!(store.get(), 61_000);
    assert_eq!(app.current_mbpm(), 61_000);
    app.handle_key_event(Key::Char('K'), &mut store, MetronomeState::Running, 0);
    assert_eq!(store.get(), 62_000);
}

#[test]
fn j_lowers_the_tempo_but_not_to_one_bpm_or_below() {
    let mut app = AppState::new(2_500, MetronomeState::Running);
    let mut store = TempoStore::new(2_500);
    app.handle_key_event(Key::Char('j'), &mut store, MetronomeState::Running, 0);
    assert_eq!(store.get(), 1_500);
    // 1.5 bpm minus one would be 0.5 bpm: refused, nothing changes.
    app.handle_key_event(Key::Char('J'), &mut store, MetronomeState::Running, 0);
    assert_eq!(store.get(), 1_500);
    assert_eq!(app.current_mbpm(), 1_500);
}

#[test]
fn space_answers_the_toggled_run_state() {
    let mut app = AppState::new(60_000, MetronomeState::Running);
    let mut store = TempoStore::new(60_000);
    let ns = app.handle_key_event(Key::Char(' '), &mut store, MetronomeState::Running, 0);
    assert_eq!(ns, Some(MetronomeState::Paused));
    assert_eq!(app.run_state(), MetronomeState::Paused);
    let ns = app.handle_key_event(Key::Char(' '), &mut store, MetronomeState::Paused, 0);
    assert_eq!(ns, Some(MetronomeState::Running));
    let ns = app.handle_key_event(Key::Char(' '), &mut store, MetronomeState::Stopped, 0);
    assert_eq!(ns, Some(MetronomeState::Stopped));
}

#[test]
fn q_answers_stopped() {
    let mut app = AppState::new(60_000, MetronomeState::Running);
    let mut store = TempoStore::new(60_000);
    let ns = app.handle_key_event(Key::Char('q'), &mut store, MetronomeState::Running, 0);
    assert_eq!(ns, Some(MetronomeState::Stopped));
    assert_eq!(app.run_state(), MetronomeState::Stopped);
    assert_eq!(store.get(), 60_000);
}

#[test]
fn tapping_g_publishes_a_plausible_estimate() {
    let mut app = AppState::new(60_000, MetronomeState::Running);
    let mut store = TempoStore::new(60_000);
    app.handle_key_event(Key::Char('g'), &mut store, MetronomeState::Running, 0);
    assert_eq!(store.get(), 60_000);
    assert!(app.is_tapping(0));
    assert_eq!(app.tap_count(0), 1);
    app.handle_key_event(Key::Char('g'), &mut store, MetronomeState::Running, 500);
    app.handle_key_event(Key::Char('g'), &mut store, MetronomeState::Running, 1_000);
    app.handle_key_event(Key::Char('G'), &mut store, MetronomeState::Running, 1_500);
    assert_eq!(store.get(), 120_000);
    assert_eq!(app.current_mbpm(), 120_000);
    assert_eq!(app.tap_count(1_500), 4);
}

#[test]
fn implausible_taps_leave_the_tempo_alone() {
    let mut app = AppState::new(60_000, MetronomeState::Running);
    let mut store = TempoStore::new(60_000);
    app.handle_key_event(Key::Char('g'), &mut store, MetronomeState::Running, 0);
    app.handle_key_event(Key::Char('g'), &mut store, MetronomeState::Running, 50);
    assert_eq!(store.get(), 60_000);
    assert_eq!(app.current_mbpm(), 60_000);
}

#[test]
fn manual_entry_commits_a_typed_tempo() {
    let mut app = AppState::new(60_000, MetronomeState::Running);
    let mut store = TempoStore::new(60_000);
    app.handle_key_event(Key::Char('i'), &mut store, MetronomeState::Running, 0);
    assert!(app.input_mode());
    for c in ['9', '0', '.', '5'] {
        app.handle_key_event(Key::Char(c), &mut store, MetronomeState::Running, 0);
    }
    assert_eq!(app.input_buffer().iter().collect::<String>(), "90.5");
    let ns = app.handle_key_event(Key::Enter, &mut store, MetronomeState::Running, 0);
    assert_eq!(ns, None);
    assert!(!app.input_mode());
    assert_eq!(store.get(), 90_500);
    assert_eq!(app.current_mbpm(), 90_500);
    assert_eq!(app.input_buffer().len(), 0);
}

#[test]
fn the_editor_accepts_only_digits_and_one_shape_of_dot() {
    let mut app = AppState::new(60_000, MetronomeState::Running);
    let mut store = TempoStore::new(60_000);
    app.handle_key_event(Key::Enter, &mut store, MetronomeState::Running, 0);
    assert!(app.input_mode());
    for c in ['a', '-', '1', '2', '!', '.', '5'] {
        app.handle_key_event(Key::Char(c), &mut store, MetronomeState::Running, 0);
    }
    assert_eq!(app.input_buffer().iter().collect::<String>(), "12.5");
    app.handle_key_event(Key::Backspace, &mut store, MetronomeState::Running, 0);
    assert_eq!(app.input_buffer().iter().collect::<String>(), "12.");
    app.handle_key_event(Key::Enter, &mut store, MetronomeState::Running, 0);
    assert_eq!(store.get(), 12_000);
}

#[test]
fn escape_discards_the_entry() {
    let mut app = AppState::new(60_000, MetronomeState::Running);
    let mut store = TempoStore::new(60_000);
    app.handle_key_event(Key::Char('i'), &mut store, MetronomeState::Running, 0);
    app.handle_key_event(Key::Char('7'), &mut store, MetronomeState::Running, 0);
    app.handle_key_event(Key::Esc, &mut store, MetronomeState::Running, 0);
    assert!(!app.input_mode());
    assert_eq!(store.get(), 60_000);
    assert_eq!(app.input_buffer().len(), 0);
}

#[test]
fn an_empty_entry_leaves_the_tempo_unchanged() {
    let mut app = AppState::new(60_000, MetronomeState::Running);
    let mut store = TempoStore::new(60_000);
    app.handle_key_event(Key::Char('i'), &mut store, MetronomeState::Running, 0);
    app.handle_key_event(Key::Enter, &mut store, MetronomeState::Running, 0);
    assert!(!app.input_mode());
    assert_eq!(store.get(), 60_000);
}

#[test]
fn unmapped_keys_do_nothing() {
    let mut app = AppState::new(60_000, MetronomeState::Running);
    let mut store = TempoStore::new(60_000);
    let ns = app.handle_key_event(Key::Char('x'), &mut store, MetronomeState::Running, 0);
    assert_eq!(ns, None);
    assert_eq!(store.get(), 60_000);
    assert_eq!(app.run_state(), MetronomeState::Running);
    let ns = app.handle_key_event(Key::Other, &mut store, MetronomeState::Running, 0);
    assert_eq!(ns, None);
}

#[test]
fn snapshot_setters_follow_the_shared_values() {
    let mut app = AppState::new(60_000, MetronomeState::Running);
    app.set_current_mbpm(75_250);
    assert_eq!(app.current_mbpm(), 75_250);
    app.set_run_state(MetronomeState::Paused);
    assert_eq!(app.run_state(), MetronomeState::Paused);
}
