//! The run-state machine: toggling, stopping, and the shared flag.

use core::sync::atomic::Ordering;
use metronome::state::{AtomicMetronomeState, MetronomeState};

#[test]
fn toggle_running_paused_running_is_net_noop() {
    let s = MetronomeState::Running;
    assert_eq!(s.toggled(), MetronomeState::Paused);
    assert_eq!(s.toggled().toggled(), MetronomeState::Running);
    let p = MetronomeState::Paused;
    assert_eq!(p.toggled(), MetronomeState::Running);
    assert_eq!(p.toggled().toggled(), MetronomeState::Paused);
}

#[test]
fn stopped_is_absorbing() {
    assert_eq!(MetronomeState::Stopped.toggled(), MetronomeState::Stopped);
}

#[test]
fn state_codes_round_trip() {
    assert_eq!(MetronomeState::from(0u8), MetronomeState::Running);
    assert_eq!(MetronomeState::from(1u8), MetronomeState::Paused);
    assert_eq!(MetronomeState::from(2u8), MetronomeState::Stopped);
    assert_eq!(MetronomeState::from(77u8), MetronomeState::Stopped);
    assert_eq!(MetronomeState::from(MetronomeState::Running.code()), MetronomeState::Running);
    assert_eq!(MetronomeState::from(MetronomeState::Paused.code()), MetronomeState::Paused);
    assert_eq!(MetronomeState::from(MetronomeState::Stopped.code()), MetronomeState::Stopped);
}

#[test]
fn atomic_state_stores_and_loads() {
    let flag = AtomicMetronomeState::new(MetronomeState::Running);
    assert_eq!(flag.load(Ordering::SeqCst), MetronomeState::Running);
    flag.store(MetronomeState::Paused, Ordering::SeqCst);
    assert_eq!(flag.load(Ordering::SeqCst), MetronomeState::Paused);
    flag.store(MetronomeState::Stopped, Ordering::SeqCst);
    assert_eq!(flag.load(Ordering::SeqCst), MetronomeState::Stopped);
}

#[test]
fn stop_from_any_state_then_toggle_stays_stopped() {
    for initial in [MetronomeState::Running, MetronomeState::Paused, MetronomeState::Stopped] {
        let flag = AtomicMetronomeState::new(initial);
        flag.store(MetronomeState::Stopped, Ordering::SeqCst);
        assert_eq!(flag.load(Ordering::SeqCst), MetronomeState::Stopped);
        let toggled = flag.load(Ordering::SeqCst).toggled();
        flag.store(toggled, Ordering::SeqCst);
        assert_eq!(flag.load(Ordering::SeqCst), MetronomeState::Stopped);
    }
}
