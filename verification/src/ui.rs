//! The operator command surface: what each key does to the shared tempo,
//! the run state, and the tap estimator.
//!
//! The surrounding binary polls the terminal, translates each key event
//! into a [`Key`], and hands it here together with the run state it just
//! observed; it stores the run state these handlers answer with. Every
//! decision — tempo nudges, pause toggling, stopping, tap registration,
//! and the manual-entry editor — is made in this module.

use vstd::prelude::*;

use crate::state::MetronomeState;
use crate::tap_tempo::{spec_estimate, spec_window_after, TapTempo};
use crate::tempo::{is_digit, is_tempo_literal, tempo_literal_mbpm, TempoStore, MBPM_PER_BPM};

verus! {

/// A key the operator pressed, as the core reads it.
#[derive(Clone, Copy, Debug, PartialEq, Eq, Structural)]
pub enum Key {
    Char(char),
    Enter,
    Esc,
    Backspace,
    Other,
}

/// What the interactive surface knows: the tempo last read, the run
/// state last observed, the tap estimator, and the manual-entry editor.
pub struct AppState {
    current_mbpm: u64,
    state: MetronomeState,
    tap_tempo: TapTempo,
    input_mode: bool,
    input_buffer: Vec<char>,
}

/// The manual-entry editor of `post` is as it was in `pre`.
pub open spec fn same_editor(pre: AppState, post: AppState) -> bool {
    &&& post.spec_input_mode() == pre.spec_input_mode()
    &&& post.spec_buffer() == pre.spec_buffer()
}

/// What one key does in normal mode. Tempo nudges move the store by one
/// bpm — downward only while the result stays above one bpm — and the
/// snapshot follows the store; quitting and the pause toggle answer the
/// run state to be stored; a tap feeds the estimator and publishes a
/// plausible estimate; `i` or enter opens the manual-entry editor; any
/// other key does nothing.
pub open spec fn spec_normal_effect(
    pre: AppState,
    pre_store: TempoStore,
    key: Key,
    observed: MetronomeState,
    now_ms: u64,
    post: AppState,
    post_store: TempoStore,
    ns: Option<MetronomeState>,
) -> bool {
    if key == Key::Char('k') || key == Key::Char('K') {
        &&& post_store.spec_mbpm() == if pre_store.spec_mbpm() + MBPM_PER_BPM <= u64::MAX {
            pre_store.spec_mbpm() + MBPM_PER_BPM
        } else {
            pre_store.spec_mbpm() as int
        }
        &&& post.spec_current_mbpm() == post_store.spec_mbpm()
        &&& ns is None
        &&& post.spec_state() == pre.spec_state()
        &&& post.spec_tap() == pre.spec_tap()
        &&& same_editor(pre, post)
    } else if key == Key::Char('j') || key == Key::Char('J') {
        &&& post_store.spec_mbpm() == if pre_store.spec_mbpm() > 2 * MBPM_PER_BPM {
            pre_store.spec_mbpm() - MBPM_PER_BPM
        } else {
            pre_store.spec_mbpm() as int
        }
        &&& post.spec_current_mbpm() == post_store.spec_mbpm()
        &&& ns is None
        &&& post.spec_state() == pre.spec_state()
        &&& post.spec_tap() == pre.spec_tap()
        &&& same_editor(pre, post)
    } else if key == Key::Char('q') || key == Key::Char('Q') {
        &&& ns == Some(MetronomeState::Stopped)
        &&& post.spec_state() == MetronomeState::Stopped
        &&& post_store == pre_store
        &&& post.spec_current_mbpm() == pre.spec_current_mbpm()
        &&& post.spec_tap() == pre.spec_tap()
        &&& same_editor(pre, post)
    } else if key == Key::Char(' ') {
        &&& ns == Some(observed.spec_toggled())
        &&& post.spec_state() == observed.spec_toggled()
        &&& post_store == pre_store
        &&& post.spec_current_mbpm() == pre.spec_current_mbpm()
        &&& post.spec_tap() == pre.spec_tap()
        &&& same_editor(pre, post)
    } else if key == Key::Char('g') || key == Key::Char('G') {
        let w = spec_window_after(pre.spec_tap().taps(), now_ms);
        let est = spec_estimate(w);
        &&& post.spec_tap().taps() == w
        &&& post.spec_tap().spec_last_estimate() == if est is Some {
            est
        } else {
            pre.spec_tap().spec_last_estimate()
        }
        &&& match est {
            Option::Some(v) => post_store.spec_mbpm() == v && post.spec_current_mbpm() == v,
            Option::None => post_store == pre_store && post.spec_current_mbpm()
                == pre.spec_current_mbpm(),
        }
        &&& ns is None
        &&& post.spec_state() == pre.spec_state()
        &&& same_editor(pre, post)
    } else if key == Key::Char('i') || key == Key::Char('I') || key == Key::Enter {
        &&& post.spec_input_mode()
        &&& post.spec_buffer().len() == 0
        &&& ns is None
        &&& post_store == pre_store
        &&& post.spec_current_mbpm() == pre.spec_current_mbpm()
        &&& post.spec_state() == pre.spec_state()
        &&& post.spec_tap() == pre.spec_tap()
    } else {
        &&& post == pre
        &&& post_store == pre_store
        &&& ns is None
    }
}

/// What one key does in the manual-entry editor. Enter commits the
/// buffer — the tempo changes exactly when the buffer is a decimal
/// literal denoting a positive tempo within the machine word, and stays
/// untouched otherwise — and closes the editor; escape discards;
/// backspace deletes the last character; a digit or dot is appended;
/// everything else does nothing.
pub open spec fn spec_input_effect(
    pre: AppState,
    pre_store: TempoStore,
    key: Key,
    post: AppState,
    post_store: TempoStore,
) -> bool {
    match key {
        Key::Enter => {
            let s = pre.spec_buffer();
            let accepted = is_tempo_literal(s) && 1 <= tempo_literal_mbpm(s) <= u64::MAX;
            &&& (accepted ==> post_store.spec_mbpm() == tempo_literal_mbpm(s)
                && post.spec_current_mbpm() == tempo_literal_mbpm(s))
            &&& (!accepted ==> post_store == pre_store && post.spec_current_mbpm()
                == pre.spec_current_mbpm())
            &&& !post.spec_input_mode()
            &&& post.spec_buffer().len() == 0
            &&& post.spec_state() == pre.spec_state()
            &&& post.spec_tap() == pre.spec_tap()
        },
        Key::Esc => {
            &&& !post.spec_input_mode()
            &&& post.spec_buffer().len() == 0
            &&& post_store == pre_store
            &&& post.spec_current_mbpm() == pre.spec_current_mbpm()
            &&& post.spec_state() == pre.spec_state()
            &&& post.spec_tap() == pre.spec_tap()
        },
        Key::Backspace => {
            &&& post.spec_buffer() == if pre.spec_buffer().len() > 0 {
                pre.spec_buffer().drop_last()
            } else {
                pre.spec_buffer()
            }
            &&& post.spec_input_mode() == pre.spec_input_mode()
            &&& post_store == pre_store
            &&& post.spec_current_mbpm() == pre.spec_current_mbpm()
            &&& post.spec_state() == pre.spec_state()
            &&& post.spec_tap() == pre.spec_tap()
        },
        Key::Char(c) => {
            &&& post.spec_buffer() == if is_digit(c) || c == '.' {
                pre.spec_buffer().push(c)
            } else {
                pre.spec_buffer()
            }
            &&& post.spec_input_mode() == pre.spec_input_mode()
            &&& post_store == pre_store
            &&& post.spec_current_mbpm() == pre.spec_current_mbpm()
            &&& post.spec_state() == pre.spec_state()
            &&& post.spec_tap() == pre.spec_tap()
        },
        Key::Other => {
            &&& post == pre
            &&& post_store == pre_store
        },
    }
}

impl AppState {
    /// The tempo last read, in milli-bpm.
    pub closed spec fn spec_current_mbpm(self) -> u64 {
        self.current_mbpm
    }

    /// The run state last observed.
    pub closed spec fn spec_state(self) -> MetronomeState {
        self.state
    }

    /// The tap estimator.
    pub closed spec fn spec_tap(self) -> TapTempo {
        self.tap_tempo
    }

    /// Whether the manual-entry editor is open.
    pub closed spec fn spec_input_mode(self) -> bool {
        self.input_mode
    }

    /// The manual-entry buffer.
    pub closed spec fn spec_buffer(self) -> Seq<char> {
        self.input_buffer@
    }

    /// The tempo snapshot is positive and the estimator well-formed.
    pub open spec fn wf(self) -> bool {
        &&& self.spec_current_mbpm() >= 1
        &&& self.spec_tap().wf()
    }

    /// A fresh surface showing `start_mbpm` and `state`, with no tap
    /// session and the editor closed.
    pub fn new(start_mbpm: u64, state: MetronomeState) -> (r: AppState)
        requires
            start_mbpm >= 1,
        ensures
            r.wf(),
            r.spec_current_mbpm() == start_mbpm,
            r.spec_state() == state,
            r.spec_tap().taps().len() == 0,
            r.spec_tap().spec_last_estimate() is None,
            !r.spec_input_mode(),
            r.spec_buffer().len() == 0,
    {
        AppState {
            current_mbpm: start_mbpm,
            state,
            tap_tempo: TapTempo::new(),
            input_mode: false,
            input_buffer: Vec::new(),
        }
    }

    /// Handles a key in normal mode; answers the run state to store, if
    /// the key asks for one.
    pub fn handle_normal_mode(
        &mut self,
        key: Key,
        store: &mut TempoStore,
        observed: MetronomeState,
        now_ms: u64,
    ) -> (ns: Option<MetronomeState>)
        requires
            old(self).wf(),
            old(store).wf(),
            old(self).spec_tap().taps().len() > 0 ==> now_ms >= old(self).spec_tap().taps().last(),
        ensures
            final(self).wf(),
            final(store).wf(),
            spec_normal_effect(
                *old(self),
                *old(store),
                key,
                observed,
                now_ms,
                *final(self),
                *final(store),
                ns,
            ),
    {
        match key {
            Key::Char(c) => {
                if c == 'k' || c == 'K' {
                    store.increase_one();
                    self.current_mbpm = store.get();
                    None
                } else if c == 'j' || c == 'J' {
                    store.decrease_one();
                    self.current_mbpm = store.get();
                    None
                } else if c == 'q' || c == 'Q' {
                    self.state = MetronomeState::Stopped;
                    Some(MetronomeState::Stopped)
                } else if c == ' ' {
                    let ns = observed.toggled();
                    self.state = ns;
                    Some(ns)
                } else if c == 'g' || c == 'G' {
                    match self.tap_tempo.tap(now_ms) {
                        Some(v) => {
                            store.set(v);
                            self.current_mbpm = v;
                        },
                        None => {},
                    }
                    None
                } else if c == 'i' || c == 'I' {
                    self.input_mode = true;
                    self.input_buffer.clear();
                    None
                } else {
                    None
                }
            },
            Key::Enter => {
                self.input_mode = true;
                self.input_buffer.clear();
                None
            },
            _ => None,
        }
    }

    /// Handles a key in the manual-entry editor.
    pub fn handle_input_mode(&mut self, key: Key, store: &mut TempoStore)
        requires
            old(self).wf(),
            old(store).wf(),
        ensures
            final(self).wf(),
            final(store).wf(),
            spec_input_effect(*old(self), *old(store), key, *final(self), *final(store)),
    {
        match key {
            Key::Enter => {
                match store.apply_manual_entry(&self.input_buffer) {
                    Some(v) => {
                        self.current_mbpm = v;
                    },
                    None => {},
                }
                self.input_mode = false;
                self.input_buffer.clear();
            },
            Key::Esc => {
                self.input_mode = false;
                self.input_buffer.clear();
            },
            Key::Backspace => {
                self.input_buffer.pop();
            },
            Key::Char(c) => {
                let u = c as u32;
                if (48 <= u && u <= 57) || c == '.' {
                    self.input_buffer.push(c);
                }
            },
            Key::Other => {},
        }
    }

    /// Handles one key event: in the manual-entry editor as
    /// [`Self::handle_input_mode`], otherwise as
    /// [`Self::handle_normal_mode`]; only normal mode ever asks for a
    /// run state to be stored.
    pub fn handle_key_event(
        &mut self,
        key: Key,
        store: &mut TempoStore,
        observed: MetronomeState,
        now_ms: u64,
    ) -> (ns: Option<MetronomeState>)
        requires
            old(self).wf(),
            old(store).wf(),
            old(self).spec_tap().taps().len() > 0 ==> now_ms >= old(self).spec_tap().taps().last(),
        ensures
            final(self).wf(),
            final(store).wf(),
            old(self).spec_input_mode() ==> spec_input_effect(
                *old(self),
                *old(store),
                key,
                *final(self),
                *final(store),
            ) && ns is None,
            !old(self).spec_input_mode() ==> spec_normal_effect(
                *old(self),
                *old(store),
                key,
                observed,
                now_ms,
                *final(self),
                *final(store),
                ns,
            ),
    {
        if self.input_mode {
            self.handle_input_mode(key, store);
            None
        } else {
            self.handle_normal_mode(key, store, observed, now_ms)
        }
    }

    /// The tempo last read, in milli-bpm.
    pub fn current_mbpm(&self) -> (r: u64)
        ensures
            r == self.spec_current_mbpm(),
    {
        self.current_mbpm
    }

    /// Shows a fresh tempo read from the store.
    pub fn set_current_mbpm(&mut self, mbpm: u64)
        requires
            old(self).wf(),
            mbpm >= 1,
        ensures
            final(self).wf(),
            final(self).spec_current_mbpm() == mbpm,
            final(self).spec_state() == old(self).spec_state(),
            final(self).spec_tap() == old(self).spec_tap(),
            same_editor(*old(self), *final(self)),
    {
        self.current_mbpm = mbpm;
    }

    /// The run state last observed.
    pub fn run_state(&self) -> (r: MetronomeState)
        ensures
            r == self.spec_state(),
    {
        self.state
    }

    /// Shows a fresh run state observed from the shared flag.
    pub fn set_run_state(&mut self, state: MetronomeState)
        requires
            old(self).wf(),
        ensures
            final(self).wf(),
            final(self).spec_state() == state,
            final(self).spec_current_mbpm() == old(self).spec_current_mbpm(),
            final(self).spec_tap() == old(self).spec_tap(),
            same_editor(*old(self), *final(self)),
    {
        self.state = state;
    }

    /// Whether the manual-entry editor is open.
    pub fn input_mode(&self) -> (r: bool)
        ensures
            r == self.spec_input_mode(),
    {
        self.input_mode
    }

    /// The manual-entry buffer, for the renderer.
    pub fn input_buffer(&self) -> (r: &Vec<char>)
        ensures
            r@ == self.spec_buffer(),
    {
        &self.input_buffer
    }

    /// Whether a tapping session is live at `now_ms`.
    pub fn is_tapping(&self, now_ms: u64) -> (r: bool)
        requires
            self.wf(),
            self.spec_tap().taps().len() > 0 ==> now_ms >= self.spec_tap().taps().last(),
        ensures
            r == crate::tap_tempo::spec_is_tapping(self.spec_tap().taps(), now_ms),
    {
        self.tap_tempo.is_tapping(now_ms)
    }

    /// The number of taps in the live session, or zero when none is.
    pub fn tap_count(&self, now_ms: u64) -> (r: usize)
        requires
            self.wf(),
            self.spec_tap().taps().len() > 0 ==> now_ms >= self.spec_tap().taps().last(),
        ensures
            r == if crate::tap_tempo::spec_is_tapping(self.spec_tap().taps(), now_ms) {
                self.spec_tap().taps().len()
            } else {
                0
            },
    {
        self.tap_tempo.get_tap_count(now_ms)
    }
}

} // verus!
