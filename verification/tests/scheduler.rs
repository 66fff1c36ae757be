//! The ramp and steady schedulers, driven as the binary drives them.

use metronome::metronome::{
    beat_period_ms, ProgressiveArgs, RampAction, RampScheduler, SteadyAction, SteadyScheduler,
};
use metronome::state::MetronomeState;

/// Drives a ramp with the run always `Running`, advancing a simulated
/// clock by each commanded sleep; returns the ticks emitted, the tempos
/// published along the way, and the tempo of the final publish.
fn run_ramp_to_completion(args: ProgressiveArgs) -> (u64, Vec<u64>, u64) {
    let mut sched = RampScheduler::new(args, 0);
    let mut now: u64 = 0;
    let mut ticks: u64 = 0;
    let mut published: Vec<u64> = Vec::new();
    loop {
        match sched.step(MetronomeState::Running, now) {
            RampAction::Tick { tempo_mbpm: _ } => {
                ticks += 1;
            }
            RampAction::PausePoll => {
                now += 100;
            }
            RampAction::Advance { sleep_ms, publish } => {
                now += sleep_ms;
                if let Some(p) = publish {
                    published.push(p);
                }
            }
            RampAction::FinishRamp { publish_mbpm } => {
                return (ticks, published, publish_mbpm);
            }
            RampAction::Abort => {
                panic!("a running ramp must not abort");
            }
        }
    }
}

#[test]
fn ramp_60_to_120_over_60s_in_groups_of_4() {
    let args = ProgressiveArgs::new(60_000, 120_000, 60_000, 4);
    let sched = RampScheduler::new(args, 0);
    assert_eq!(sched.total_beats(), 90);
    assert_eq!(sched.num_increments(), 22);
    // 60 bpm over 22 steps: 2.7273 bpm per step, truncated to milli-bpm.
    assert_eq!(sched.increment_delta_mbpm(), 2_727);
    assert_eq!(sched.current_mbpm(), 60_000);

    let (ticks, published, end) = run_ramp_to_completion(args);
    assert_eq!(ticks, 90);
    // One publish per full group of four beats except the final group.
    assert_eq!(published.len(), 22);
    for (i, p) in published.iter().enumerate() {
        assert_eq!(*p, 60_000 + (i as u64 + 1) * 2_727);
    }
    assert_eq!(*published.last().unwrap(), 119_994);
    // The final publish corrects the truncation residue exactly.
    assert_eq!(end, 120_000);
}

#[test]
fn ramp_downward_publishes_end_exactly() {
    let args = ProgressiveArgs::new(180_000, 90_000, 30_000, 8);
    let (ticks, published, end) = run_ramp_to_completion(args);
    // round((180 + 90) / 2 bpm * 30 s / 60) = round(67.5) = 68 beats.
    assert_eq!(ticks, 68);
    assert_eq!(published.len(), 8);
    for p in &published {
        assert!(90_000 <= *p && *p <= 180_000);
    }
    assert_eq!(end, 90_000);
}

#[test]
fn zero_duration_ramp_publishes_end_at_once() {
    let args = ProgressiveArgs::new(60_000, 120_000, 0, 4);
    let mut sched = RampScheduler::new(args, 0);
    assert_eq!(sched.total_beats(), 0);
    match sched.step(MetronomeState::Running, 0) {
        RampAction::FinishRamp { publish_mbpm } => assert_eq!(publish_mbpm, 120_000),
        other => panic!("expected the ramp to finish at once, got {:?}", other),
    }
    assert!(sched.is_done());
    // The steady phase then begins at the published tempo.
    let mut steady = SteadyScheduler::new(0);
    match steady.step(MetronomeState::Running, 120_000, 0) {
        SteadyAction::Tick { sleep_ms } => assert_eq!(sleep_ms, 500),
        other => panic!("expected a tick, got {:?}", other),
    }
}

#[test]
fn ramp_shorter_than_one_group_never_steps_the_tempo() {
    // Two beats in groups of four: no increment, only the final publish.
    let args = ProgressiveArgs::new(60_000, 120_000, 1_000, 4);
    let sched = RampScheduler::new(args, 0);
    assert_eq!(sched.total_beats(), 2);
    assert_eq!(sched.num_increments(), 0);
    assert_eq!(sched.increment_delta_mbpm(), 0);
    let (ticks, published, end) = run_ramp_to_completion(args);
    assert_eq!(ticks, 2);
    assert_eq!(published.len(), 0);
    assert_eq!(end, 120_000);
}

#[test]
fn a_stopped_ramp_aborts_without_publishing() {
    let args = ProgressiveArgs::new(60_000, 120_000, 60_000, 4);
    let mut sched = RampScheduler::new(args, 0);
    assert!(matches!(
        sched.step(MetronomeState::Stopped, 0),
        RampAction::Abort
    ));
    assert!(sched.is_done());
}

#[test]
fn a_paused_ramp_polls_and_aborts_on_stop() {
    let args = ProgressiveArgs::new(60_000, 120_000, 60_000, 4);
    let mut sched = RampScheduler::new(args, 0);
    assert!(matches!(
        sched.step(MetronomeState::Running, 0),
        RampAction::Tick { tempo_mbpm: 60_000 }
    ));
    assert!(matches!(
        sched.step(MetronomeState::Paused, 0),
        RampAction::PausePoll
    ));
    assert!(matches!(
        sched.step(MetronomeState::Paused, 100),
        RampAction::PausePoll
    ));
    assert!(matches!(
        sched.step(MetronomeState::Stopped, 200),
        RampAction::Abort
    ));
    assert!(sched.is_done());
}

#[test]
fn ramp_beats_are_anchored_one_period_apart() {
    // Constant 120 bpm "ramp": every beat sleeps one 500 ms period when
    // the scheduler keeps up with its anchors.
    let args = ProgressiveArgs::new(120_000, 120_000, 5_000, 100);
    let mut sched = RampScheduler::new(args, 0);
    assert_eq!(sched.total_beats(), 10);
    let mut now: u64 = 0;
    for _ in 0..3 {
        assert!(matches!(
            sched.step(MetronomeState::Running, now),
            RampAction::Tick { .. }
        ));
        match sched.step(MetronomeState::Running, now) {
            RampAction::Advance { sleep_ms, publish } => {
                assert_eq!(sleep_ms, 500);
                assert_eq!(publish, None);
                now += sleep_ms;
            }
            other => panic!("expected an advance, got {:?}", other),
        }
    }
}

#[test]
fn a_ramp_behind_schedule_resynchronizes_instead_of_catching_up() {
    let args = ProgressiveArgs::new(120_000, 120_000, 5_000, 100);
    let mut sched = RampScheduler::new(args, 0);
    sched.step(MetronomeState::Running, 0);
    // The anchor lies at 500 ms but the clock is already at 10 s.
    match sched.step(MetronomeState::Running, 10_000) {
        RampAction::Advance { sleep_ms, .. } => assert_eq!(sleep_ms, 0),
        other => panic!("expected an advance, got {:?}", other),
    }
    // The next beat is one full period after the resynchronized anchor.
    sched.step(MetronomeState::Running, 10_000);
    match sched.step(MetronomeState::Running, 10_000) {
        RampAction::Advance { sleep_ms, .. } => assert_eq!(sleep_ms, 500),
        other => panic!("expected an advance, got {:?}", other),
    }
}

#[test]
fn beat_periods_round_to_the_nearest_millisecond() {
    assert_eq!(beat_period_ms(120_000), 500);
    assert_eq!(beat_period_ms(60_000), 1_000);
    // 70 bpm: 857.14... ms.
    assert_eq!(beat_period_ms(70_000), 857);
    // 7 bpm: 8571.4... ms.
    assert_eq!(beat_period_ms(7_000), 8_571);
    assert_eq!(beat_period_ms(1), 60_000_000);
}

#[test]
fn steady_phase_beats_follow_the_live_tempo() {
    let mut steady = SteadyScheduler::new(0);
    match steady.step(MetronomeState::Running, 120_000, 0) {
        SteadyAction::Tick { sleep_ms } => assert_eq!(sleep_ms, 500),
        other => panic!("expected a tick, got {:?}", other),
    }
    // The operator halves the tempo; the next beat takes a full second.
    match steady.step(MetronomeState::Running, 60_000, 500) {
        SteadyAction::Tick { sleep_ms } => assert_eq!(sleep_ms, 1_000),
        other => panic!("expected a tick, got {:?}", other),
    }
}

#[test]
fn steady_phase_pause_resets_the_anchor() {
    let mut steady = SteadyScheduler::new(0);
    steady.step(MetronomeState::Running, 120_000, 0);
    assert!(matches!(
        steady.step(MetronomeState::Paused, 120_000, 500),
        SteadyAction::PausePoll
    ));
    assert!(matches!(
        steady.step(MetronomeState::Paused, 120_000, 600),
        SteadyAction::PausePoll
    ));
    // On resume the beat fires at once and the next anchor sits one full
    // period past "now": no backlog of skipped beats.
    match steady.step(MetronomeState::Running, 120_000, 3_000) {
        SteadyAction::Tick { sleep_ms } => assert_eq!(sleep_ms, 500),
        other => panic!("expected a tick, got {:?}", other),
    }
}

#[test]
fn steady_phase_finishes_on_stop() {
    let mut steady = SteadyScheduler::new(0);
    assert!(matches!(
        steady.step(MetronomeState::Stopped, 120_000, 0),
        SteadyAction::Finished
    ));
}
