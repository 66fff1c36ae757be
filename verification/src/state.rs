//! The tri-state run flag that gates the beat scheduler.
//!
//! `Stopped` is terminal: no command leads out of it. `Running` and
//! `Paused` exchange only through the explicit pause/resume toggle, and
//! either moves to `Stopped` through the stop command.

use core::sync::atomic::{AtomicU8, Ordering};
use vstd::prelude::*;

verus! {

/// The run state of the metronome.
#[derive(Clone, Copy, Debug, PartialEq, Eq, Structural)]
pub enum MetronomeState {
    Running,
    Paused,
    Stopped,
}

/// The state encoded by a byte: 0 is `Running`, 1 is `Paused`, anything
/// else is `Stopped`.
pub open spec fn state_of_code(value: u8) -> MetronomeState {
    if value == 0 {
        MetronomeState::Running
    } else if value == 1 {
        MetronomeState::Paused
    } else {
        MetronomeState::Stopped
    }
}

impl MetronomeState {
    /// The byte this state is stored as.
    pub open spec fn spec_code(self) -> u8 {
        match self {
            MetronomeState::Running => 0,
            MetronomeState::Paused => 1,
            MetronomeState::Stopped => 2,
        }
    }

    /// The byte this state is stored as; decoding it gives the state back.
    pub fn code(self) -> (r: u8)
        ensures
            r == self.spec_code(),
            state_of_code(r) == self,
    {
        match self {
            MetronomeState::Running => 0,
            MetronomeState::Paused => 1,
            MetronomeState::Stopped => 2,
        }
    }

    /// The state after the pause/resume toggle command: `Running` and
    /// `Paused` exchange, `Stopped` stays `Stopped`.
    pub open spec fn spec_toggled(self) -> MetronomeState {
        match self {
            MetronomeState::Running => MetronomeState::Paused,
            MetronomeState::Paused => MetronomeState::Running,
            MetronomeState::Stopped => MetronomeState::Stopped,
        }
    }

    /// Applies the pause/resume toggle command.
    pub fn toggled(self) -> (r: MetronomeState)
        ensures
            r == self.spec_toggled(),
    {
        match self {
            MetronomeState::Running => MetronomeState::Paused,
            MetronomeState::Paused => MetronomeState::Running,
            MetronomeState::Stopped => MetronomeState::Stopped,
        }
    }

    /// The state after the stop command, from any state.
    pub open spec fn spec_after_stop(self) -> MetronomeState {
        MetronomeState::Stopped
    }
}

impl From<u8> for MetronomeState {
    /// Decodes a stored byte back into a state.
    fn from(value: u8) -> (r: MetronomeState) {
        match value {
            0 => MetronomeState::Running,
            1 => MetronomeState::Paused,
            _ => MetronomeState::Stopped,
        }
    }
}

impl vstd::std_specs::convert::FromSpecImpl<u8> for MetronomeState {
    open spec fn obeys_from_spec() -> bool {
        true
    }

    open spec fn from_spec(value: u8) -> MetronomeState {
        state_of_code(value)
    }
}

/// The transitions of the run-state machine: toggling pause twice is a net
/// no-op, the stop command yields `Stopped` from every state, and neither
/// command leads out of `Stopped`.
pub proof fn lemma_run_state_transitions(s: MetronomeState)
    ensures
        s.spec_toggled().spec_toggled() == s,
        s.spec_after_stop() == MetronomeState::Stopped,
        MetronomeState::Stopped.spec_toggled() == MetronomeState::Stopped,
        MetronomeState::Stopped.spec_after_stop() == MetronomeState::Stopped,
{
}

/// The shared run flag, read by the scheduler every beat and written by the
/// operator command surface. A plain byte atomic carries the state across
/// execution contexts; what value a `load` observes is decided by the
/// interleaving of contexts, which lies outside these contracts, so `load`
/// promises only to return a well-formed state.
pub struct AtomicMetronomeState {
    state: AtomicU8,
}

impl AtomicMetronomeState {
    /// A fresh flag holding `initial_state`.
    pub fn new(initial_state: MetronomeState) -> AtomicMetronomeState {
        AtomicMetronomeState { state: AtomicU8::new(initial_state.code()) }
    }

    /// Reads whatever state was last stored by any context.
    pub fn load(&self, ordering: Ordering) -> MetronomeState {
        MetronomeState::from(self.state.load(ordering))
    }

    /// Publishes `state` for every context to observe.
    pub fn store(&self, state: MetronomeState, ordering: Ordering) {
        self.state.store(state.code(), ordering);
    }
}

} // verus!
