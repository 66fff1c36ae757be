//! Tap-tempo estimation: deriving a tempo from the spacing of manual taps.
//!
//! The estimator keeps a bounded window of the most recent tap times, read
//! from a monotonic clock in milliseconds. A tap arriving after a long
//! silence starts a fresh session. With at least two taps in the window,
//! the average inter-tap interval gives a tempo; only a plausible tempo is
//! surfaced, anything else is discarded.

use vstd::prelude::*;

verus! {

/// How many tap times the window holds at most.
pub const MAX_TAP_HISTORY: usize = 5;

/// A tap later than this after the previous one starts a fresh session.
pub const TAP_TIMEOUT_MS: u64 = 5000;

/// The slowest plausible estimate, in milli-bpm (5 bpm).
pub const MIN_TAP_MBPM: u64 = 5000;

/// The fastest plausible estimate, in milli-bpm (300 bpm).
pub const MAX_TAP_MBPM: u64 = 300000;

/// The estimate a tap window yields: the tempo whose beat interval is the
/// average of the consecutive inter-tap intervals, rounded to milli-bpm;
/// nothing with fewer than two taps, a zero span, or a tempo outside the
/// plausible range.
pub open spec fn spec_estimate(taps: Seq<u64>) -> Option<u64> {
    if taps.len() < 2 {
        None
    } else {
        let span = taps.last() - taps.first();
        if span <= 0 {
            None
        } else {
            let est = (60_000_000 * (taps.len() - 1) + span / 2) / span;
            if MIN_TAP_MBPM <= est <= MAX_TAP_MBPM {
                Some(est as u64)
            } else {
                None
            }
        }
    }
}

/// The tap window after a tap at `now`: cleared first when the previous
/// tap is more than the timeout ago, then `now` appended, then the oldest
/// entry evicted if the window overflows.
pub open spec fn spec_window_after(taps: Seq<u64>, now: u64) -> Seq<u64> {
    let base = if taps.len() > 0 && now > taps.last() + TAP_TIMEOUT_MS {
        Seq::<u64>::empty()
    } else {
        taps
    };
    let pushed = base.push(now);
    if pushed.len() > MAX_TAP_HISTORY {
        pushed.drop_first()
    } else {
        pushed
    }
}

/// Whether a session is live at `now`: the window is non-empty and its
/// most recent tap is within the timeout.
pub open spec fn spec_is_tapping(taps: Seq<u64>, now: u64) -> bool {
    taps.len() > 0 && now <= taps.last() + TAP_TIMEOUT_MS
}

/// The tap-tempo estimator: a bounded window of monotonic tap times and
/// the last estimate it surfaced.
pub struct TapTempo {
    tap_times: Vec<u64>,
    last_estimate_mbpm: Option<u64>,
}

impl TapTempo {
    /// The window of tap times, oldest first.
    pub closed spec fn taps(self) -> Seq<u64> {
        self.tap_times@
    }

    /// The last estimate surfaced, if any.
    pub closed spec fn spec_last_estimate(self) -> Option<u64> {
        self.last_estimate_mbpm
    }

    /// The window is bounded and its times never decrease: taps come from
    /// one monotonic clock.
    pub open spec fn wf(self) -> bool {
        &&& self.taps().len() <= MAX_TAP_HISTORY
        &&& forall|i: int, j: int|
            0 <= i <= j < self.taps().len() ==> #[trigger] self.taps()[i]
                <= #[trigger] self.taps()[j]
    }

    /// A fresh estimator with an empty window.
    pub fn new() -> (r: TapTempo)
        ensures
            r.wf(),
            r.taps().len() == 0,
            r.spec_last_estimate() is None,
    {
        TapTempo { tap_times: Vec::new(), last_estimate_mbpm: None }
    }

    /// Registers a tap at `now_ms` and returns the estimate the new
    /// window yields, if a plausible one; a plausible estimate is also
    /// cached, an implausible or missing one leaves the cache alone.
    /// `now_ms` must come from the same monotonic clock as the taps
    /// already in the window.
    pub fn tap(&mut self, now_ms: u64) -> (r: Option<u64>)
        requires
            old(self).wf(),
            old(self).taps().len() > 0 ==> now_ms >= old(self).taps().last(),
        ensures
            final(self).wf(),
            final(self).taps() == spec_window_after(old(self).taps(), now_ms),
            r == spec_estimate(final(self).taps()),
            final(self).spec_last_estimate() == if r is Some {
                r
            } else {
                old(self).spec_last_estimate()
            },
            r matches Some(v) ==> MIN_TAP_MBPM <= v <= MAX_TAP_MBPM,
    {
        let n = self.tap_times.len();
        if n > 0 {
            let last = self.tap_times[n - 1];
            if now_ms - last > TAP_TIMEOUT_MS {
                self.tap_times.clear();
            }
        }
        self.tap_times.push(now_ms);
        if self.tap_times.len() > MAX_TAP_HISTORY {
            self.tap_times.remove(0);
        }
        assert(self.taps() == spec_window_after(old(self).taps(), now_ms));
        if self.tap_times.len() < 2 {
            return None;
        }
        let r = self.calculate_bpm();
        if let Some(v) = r {
            self.last_estimate_mbpm = Some(v);
        }
        r
    }

    /// The estimate the current window yields.
    fn calculate_bpm(&self) -> (r: Option<u64>)
        requires
            self.wf(),
        ensures
            r == spec_estimate(self.taps()),
    {
        let n = self.tap_times.len();
        if n < 2 {
            return None;
        }
        let first = self.tap_times[0];
        let last = self.tap_times[n - 1];
        let span = last - first;
        if span == 0 {
            return None;
        }
        let est = (60_000_000u64 * (n as u64 - 1) + span / 2) / span;
        if MIN_TAP_MBPM <= est && est <= MAX_TAP_MBPM {
            Some(est)
        } else {
            None
        }
    }

    /// Whether a tapping session is live at `now_ms`.
    pub fn is_tapping(&self, now_ms: u64) -> (r: bool)
        requires
            self.wf(),
            self.taps().len() > 0 ==> now_ms >= self.taps().last(),
        ensures
            r == spec_is_tapping(self.taps(), now_ms),
    {
        let n = self.tap_times.len();
        if n == 0 {
            return false;
        }
        let last = self.tap_times[n - 1];
        now_ms - last <= TAP_TIMEOUT_MS
    }

    /// The number of taps in the live session, or zero when none is live.
    pub fn get_tap_count(&self, now_ms: u64) -> (r: usize)
        requires
            self.wf(),
            self.taps().len() > 0 ==> now_ms >= self.taps().last(),
        ensures
            r == if spec_is_tapping(self.taps(), now_ms) {
                self.taps().len()
            } else {
                0
            },
    {
        if self.is_tapping(now_ms) {
            self.tap_times.len()
        } else {
            0
        }
    }
}

impl Default for TapTempo {
    /// The same fresh estimator as `new`.
    fn default() -> (r: TapTempo)
        ensures
            r.wf(),
            r.taps().len() == 0,
            r.spec_last_estimate() is None,
    {
        TapTempo::new()
    }
}

} // verus!
