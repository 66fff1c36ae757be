//! The beat scheduler: a progressive tempo ramp followed by a steady
//! phase, as step machines over plain values.
//!
//! The machines make no call that blocks or emits sound. Each `step`
//! takes the run state just observed and the monotonic clock in
//! milliseconds, moves the machine, and answers with the one action the
//! caller performs: emit a tick, sleep to the next beat anchor, wait out
//! a pause slice, publish a tempo, or unwind. Beat anchors advance from
//! the previous anchor rather than from "now", so rounding never
//! accumulates; a scheduler that has fallen behind resynchronizes its
//! anchor to "now" and drops the missed beats instead of replaying them.

use vstd::arithmetic::div_mod::{
    lemma_div_is_ordered, lemma_div_nonincreasing, lemma_div_pos_is_pos,
    lemma_fundamental_div_mod, lemma_fundamental_div_mod_converse,
    lemma_mod_division_less_than_divisor,
};
use vstd::arithmetic::mul::lemma_mul_inequality;
use vstd::prelude::*;

use crate::state::MetronomeState;

verus! {

/// The largest tempo a ramp may be configured with, in milli-bpm.
pub const MAX_MBPM: u64 = 1_000_000_000;

/// The longest span a ramp may be configured with, in milliseconds.
pub const MAX_RAMP_DURATION_MS: u64 = 1_000_000_000;

/// How long one pause-poll slice lasts, in milliseconds.
pub const PAUSE_POLL_MS: u64 = 100;

/// The configuration of a progressive ramp: tempo moves from
/// `start_mbpm` to `end_mbpm` over `duration_ms`, stepping once per
/// group of `measures` beats.
#[derive(Clone, Copy, Debug, PartialEq, Eq, Structural)]
pub struct ProgressiveArgs {
    pub start_mbpm: u64,
    pub end_mbpm: u64,
    pub duration_ms: u64,
    pub measures: u32,
}

impl ProgressiveArgs {
    /// Both tempos are positive and within the configuration cap, the
    /// span is bounded, and a group holds at least one beat.
    pub open spec fn wf(self) -> bool {
        &&& 1 <= self.start_mbpm <= MAX_MBPM
        &&& 1 <= self.end_mbpm <= MAX_MBPM
        &&& self.duration_ms <= MAX_RAMP_DURATION_MS
        &&& self.measures >= 1
    }

    /// A ramp configuration; callers validate the bounds before the
    /// scheduler runs, a group of zero beats is a configuration error.
    pub fn new(start_mbpm: u64, end_mbpm: u64, duration_ms: u64, measures: u32) -> (r:
        ProgressiveArgs)
        requires
            1 <= start_mbpm <= MAX_MBPM,
            1 <= end_mbpm <= MAX_MBPM,
            duration_ms <= MAX_RAMP_DURATION_MS,
            measures >= 1,
        ensures
            r.wf(),
            r == (ProgressiveArgs { start_mbpm, end_mbpm, duration_ms, measures }),
    {
        ProgressiveArgs { start_mbpm, end_mbpm, duration_ms, measures }
    }
}

/// The number of beats the ramp spans: the average of start and end
/// tempo held for the configured span, rounded to the nearest whole
/// beat. In milli-bpm and milliseconds that is
/// round((start + end) * duration / 120_000_000).
pub open spec fn ramp_total_beats(a: ProgressiveArgs) -> int {
    ((a.start_mbpm + a.end_mbpm) * a.duration_ms + 60_000_000) / 120_000_000
}

/// How many tempo steps the ramp takes: one per full group of
/// `measures` beats, none when the ramp is shorter than one group.
pub open spec fn ramp_num_increments(a: ProgressiveArgs) -> int {
    ramp_total_beats(a) / (a.measures as int)
}

/// The tempo change of one ramp step, in milli-bpm, truncated toward
/// zero; a ramp without steps changes nothing until the final publish.
pub open spec fn ramp_delta_mbpm(a: ProgressiveArgs) -> int {
    let n = ramp_num_increments(a);
    if n == 0 {
        0
    } else if a.end_mbpm >= a.start_mbpm {
        (a.end_mbpm - a.start_mbpm) / n
    } else {
        -((a.start_mbpm - a.end_mbpm) / n)
    }
}

/// Whether the ramp steps its tempo on completing beat `beat`: after
/// every full group of `measures` beats, suppressed on the group that
/// ends exactly at the final beat.
pub open spec fn spec_fires(a: ProgressiveArgs, beat: int) -> bool {
    (beat + 1) % (a.measures as int) == 0 && beat + 1 < ramp_total_beats(a)
}

/// The span of one beat at `mbpm`, in milliseconds, rounded to the
/// nearest: 60_000_000 / mbpm.
pub open spec fn spec_beat_period_ms(mbpm: u64) -> int
    recommends
        mbpm >= 1,
{
    (60_000_000 + (mbpm as int) / 2) / (mbpm as int)
}

/// Where the beat anchor stands after one period: one period past the
/// previous anchor, or "now" itself when that time has already passed.
pub open spec fn spec_next_anchor(anchor: u64, period: int, now: u64) -> int {
    let t = if anchor + period <= u64::MAX {
        anchor + period
    } else {
        u64::MAX as int
    };
    if t > now {
        t
    } else {
        now as int
    }
}

/// How long to sleep from `now` to reach the next anchor; nothing when
/// the anchor has already passed.
pub open spec fn spec_sleep_ms(anchor: u64, period: int, now: u64) -> int {
    let t = if anchor + period <= u64::MAX {
        anchor + period
    } else {
        u64::MAX as int
    };
    if t > now {
        t - now
    } else {
        0
    }
}

/// The span of one beat at `mbpm` in milliseconds, rounded to nearest.
pub fn beat_period_ms(mbpm: u64) -> (r: u64)
    requires
        mbpm >= 1,
    ensures
        r == spec_beat_period_ms(mbpm),
{
    (60_000_000 + mbpm / 2) / mbpm
}

/// The derived ramp quantities are bounded by the configuration caps.
proof fn lemma_ramp_totals_bounds(a: ProgressiveArgs)
    requires
        a.wf(),
    ensures
        0 <= ramp_total_beats(a) <= 0x4_0000_0000_0000_0000,
        0 <= ramp_num_increments(a) <= ramp_total_beats(a),
        -(MAX_MBPM as int) <= ramp_delta_mbpm(a) <= MAX_MBPM as int,
{
    let num = (a.start_mbpm + a.end_mbpm) * a.duration_ms + 60_000_000;
    assert((a.start_mbpm + a.end_mbpm) * a.duration_ms <= 2_000_000_000_000_000_000)
        by (nonlinear_arith)
        requires
            a.start_mbpm + a.end_mbpm <= 2_000_000_000,
            0 <= a.duration_ms <= 1_000_000_000,
    ;
    assert((a.start_mbpm + a.end_mbpm) * a.duration_ms >= 0) by (nonlinear_arith)
        requires
            a.start_mbpm + a.end_mbpm >= 0,
            a.duration_ms >= 0,
    ;
    lemma_div_pos_is_pos(num, 120_000_000);
    lemma_div_is_ordered(num, 0x4_0000_0000_0000_0000, 120_000_000);
    lemma_div_nonincreasing(num, 120_000_000);
    let t = ramp_total_beats(a);
    lemma_div_pos_is_pos(t, a.measures as int);
    lemma_div_nonincreasing(t, a.measures as int);
    let n = ramp_num_increments(a);
    if n > 0 {
        if a.end_mbpm >= a.start_mbpm {
            lemma_div_pos_is_pos(a.end_mbpm - a.start_mbpm, n);
            lemma_div_nonincreasing(a.end_mbpm - a.start_mbpm, n);
        } else {
            lemma_div_pos_is_pos(a.start_mbpm - a.end_mbpm, n);
            lemma_div_nonincreasing(a.start_mbpm - a.end_mbpm, n);
        }
    }
}

/// Every tempo the ramp holds stays between the start and end tempos:
/// after `k` of its steps the tempo is `start + k * delta`, within
/// `[min(start, end), max(start, end)]`, hence positive and capped.
pub proof fn lemma_ramp_tempo_range(a: ProgressiveArgs, k: int)
    requires
        a.wf(),
        0 <= k <= ramp_num_increments(a),
    ensures
        a.start_mbpm + k * ramp_delta_mbpm(a) >= if a.end_mbpm >= a.start_mbpm {
            a.start_mbpm as int
        } else {
            a.end_mbpm as int
        },
        a.start_mbpm + k * ramp_delta_mbpm(a) <= if a.end_mbpm >= a.start_mbpm {
            a.end_mbpm as int
        } else {
            a.start_mbpm as int
        },
{
    let n = ramp_num_increments(a);
    let d = ramp_delta_mbpm(a);
    if n == 0 {
        assert(k == 0);
        assert(k * d == 0) by (nonlinear_arith)
            requires
                k == 0,
        ;
    } else if a.end_mbpm >= a.start_mbpm {
        let diff = a.end_mbpm - a.start_mbpm;
        lemma_div_pos_is_pos(diff, n);
        lemma_mul_inequality(k, n, d);
        lemma_fundamental_div_mod(diff, n);
        lemma_mod_division_less_than_divisor(diff, n);
        assert(n * d <= diff);
        assert(0 <= k * d) by (nonlinear_arith)
            requires
                k >= 0,
                d >= 0,
        ;
    } else {
        let diff = a.start_mbpm - a.end_mbpm;
        let q = diff / n;
        lemma_div_pos_is_pos(diff, n);
        lemma_mul_inequality(k, n, q);
        lemma_fundamental_div_mod(diff, n);
        lemma_mod_division_less_than_divisor(diff, n);
        assert(n * q <= diff);
        assert(0 <= k * q) by (nonlinear_arith)
            requires
                k >= 0,
                q >= 0,
        ;
        assert(k * d == -(k * q)) by (nonlinear_arith)
            requires
                d == -q,
        ;
    }
}

/// A beat that ends a full group moves the step count from `b / m` to
/// `(b + 1) / m`, one higher.
proof fn lemma_incs_at_fire(b: int, m: int)
    requires
        m >= 1,
        b >= 0,
        (b + 1) % m == 0,
    ensures
        (b + 1) / m == b / m + 1,
{
    let x = b + 1;
    let q = x / m;
    lemma_fundamental_div_mod(x, m);
    assert(x == m * q);
    if q <= 0 {
        assert(m * q <= 0) by (nonlinear_arith)
            requires
                q <= 0,
                m >= 1,
        ;
        assert(false);
    }
    assert(b == (q - 1) * m + (m - 1)) by (nonlinear_arith)
        requires
            b + 1 == m * q,
    ;
    lemma_fundamental_div_mod_converse(b, m, q - 1, m - 1);
}

/// A beat that does not end a full group leaves the step count `b / m`
/// unchanged.
proof fn lemma_incs_no_fire(b: int, m: int)
    requires
        m >= 1,
        b >= 0,
        (b + 1) % m != 0,
    ensures
        (b + 1) / m == b / m,
{
    let q = b / m;
    let r = b % m;
    lemma_fundamental_div_mod(b, m);
    lemma_mod_division_less_than_divisor(b, m);
    if r + 1 == m {
        assert(b + 1 == (q + 1) * m + 0) by (nonlinear_arith)
            requires
                b == m * q + r,
                r + 1 == m,
        ;
        lemma_fundamental_div_mod_converse(b + 1, m, q + 1, 0);
        assert(false);
    }
    assert(b + 1 == q * m + (r + 1)) by (nonlinear_arith)
        requires
            b == m * q + r,
    ;
    lemma_fundamental_div_mod_converse(b + 1, m, q, r + 1);
}

/// Where the ramp machine stands between steps.
#[derive(Clone, Copy, Debug, PartialEq, Eq, Structural)]
pub enum RampStage {
    /// About to handle the next beat (or to finish, after the last one).
    BeatStart,
    /// The beat is handled; waiting to advance the anchor, or polling
    /// through a pause.
    Waiting,
    /// The ramp ran to its last beat and published the end tempo.
    Complete,
    /// The ramp observed `Stopped` and unwound; no steady phase follows.
    Halted,
}

/// What the caller performs after one ramp step.
#[derive(Clone, Copy, Debug, PartialEq, Eq, Structural)]
pub enum RampAction {
    /// Emit one tick at the tempo in effect, then step again.
    Tick { tempo_mbpm: u64 },
    /// Sleep one pause slice (`PAUSE_POLL_MS`), then step again.
    PausePoll,
    /// Sleep to the next beat anchor, then publish the given tempo to
    /// the shared store if one is given, then step again.
    Advance { sleep_ms: u64, publish: Option<u64> },
    /// The ramp is complete: publish exactly this tempo (the configured
    /// end tempo) and move on to the steady phase.
    FinishRamp { publish_mbpm: u64 },
    /// The run was stopped: unwind without a steady phase.
    Abort,
}

/// The progressive-ramp machine. It walks the configured span beat by
/// beat, gated by the observed run state, stepping the tempo after each
/// full group of `measures` beats except the one ending at the final
/// beat, and closes by publishing the end tempo exactly — also when the
/// span holds no beat at all.
pub struct RampScheduler {
    args: ProgressiveArgs,
    total_beats: u64,
    num_increments: u64,
    delta_mbpm: i64,
    beat: u64,
    current_mbpm: u64,
    anchor_ms: u64,
    stage: RampStage,
    incs: Ghost<int>,
}

impl RampScheduler {
    /// The configuration the machine was built with.
    pub closed spec fn spec_args(self) -> ProgressiveArgs {
        self.args
    }

    /// The beat count of the ramp.
    pub closed spec fn spec_total_beats(self) -> u64 {
        self.total_beats
    }

    /// The number of tempo steps of the ramp.
    pub closed spec fn spec_num_increments(self) -> u64 {
        self.num_increments
    }

    /// The tempo change of one step, in milli-bpm.
    pub closed spec fn spec_delta_mbpm(self) -> i64 {
        self.delta_mbpm
    }

    /// How many beats have been completed.
    pub closed spec fn spec_beat(self) -> u64 {
        self.beat
    }

    /// The tempo currently in effect, in milli-bpm.
    pub closed spec fn spec_current_mbpm(self) -> u64 {
        self.current_mbpm
    }

    /// The anchor the next beat is scheduled against, in milliseconds.
    pub closed spec fn spec_anchor_ms(self) -> u64 {
        self.anchor_ms
    }

    /// Where the machine stands.
    pub closed spec fn spec_stage(self) -> RampStage {
        self.stage
    }

    /// How many tempo steps have been applied.
    pub closed spec fn spec_incs(self) -> int {
        self.incs@
    }

    /// The machine invariant: the derived quantities match the
    /// configuration, the beat index lies within the span, the tempo in
    /// effect is `start + incs * delta` for the step count the completed
    /// beats dictate, and a waiting machine still has a beat to finish.
    pub open spec fn wf(self) -> bool {
        let a = self.spec_args();
        let t = ramp_total_beats(a);
        let n = ramp_num_increments(a);
        &&& a.wf()
        &&& self.spec_total_beats() == t
        &&& self.spec_num_increments() == n
        &&& self.spec_delta_mbpm() == ramp_delta_mbpm(a)
        &&& 0 <= self.spec_beat() <= t
        &&& 0 <= self.spec_incs() <= n
        &&& self.spec_current_mbpm() == a.start_mbpm + self.spec_incs() * ramp_delta_mbpm(a)
        &&& (self.spec_beat() < t ==> self.spec_incs() == (self.spec_beat() as int) / (a.measures as int))
        &&& (self.spec_beat() == t && t >= 1 ==> self.spec_incs() == (t - 1) / (a.measures as int))
        &&& (self.spec_stage() is Waiting ==> self.spec_beat() < t)
    }

    /// A machine at the start of the ramp, anchored at `now_ms`. The
    /// derived quantities state the ramp arithmetic exactly: the beat
    /// count is the rounded product of average tempo and span, the step
    /// count its floor division by the group size, the step size the
    /// tempo difference split evenly over the steps. A zero span yields
    /// a ramp of zero beats, which publishes the end tempo at once.
    pub fn new(args: ProgressiveArgs, now_ms: u64) -> (r: RampScheduler)
        requires
            args.wf(),
        ensures
            r.wf(),
            r.spec_args() == args,
            r.spec_beat() == 0,
            r.spec_stage() is BeatStart,
            r.spec_current_mbpm() == args.start_mbpm,
            r.spec_anchor_ms() == now_ms,
            r.spec_total_beats() == ramp_total_beats(args),
            r.spec_num_increments() == ramp_num_increments(args),
            r.spec_delta_mbpm() == ramp_delta_mbpm(args),
            args.duration_ms == 0 ==> r.spec_total_beats() == 0,
    {
        proof {
            lemma_ramp_totals_bounds(args);
        }
        let sum = args.start_mbpm + args.end_mbpm;
        assert(sum * args.duration_ms <= 2_000_000_000_000_000_000) by (nonlinear_arith)
            requires
                sum <= 2_000_000_000,
                0 <= args.duration_ms <= 1_000_000_000,
        ;
        assert(sum * args.duration_ms >= 0) by (nonlinear_arith)
            requires
                sum >= 0,
                args.duration_ms >= 0,
        ;
        let prod = sum * args.duration_ms;
        let total_beats = (prod + 60_000_000) / 120_000_000;
        let num_increments = total_beats / (args.measures as u64);
        let delta_mbpm: i64 = if num_increments == 0 {
            0
        } else if args.end_mbpm >= args.start_mbpm {
            ((args.end_mbpm - args.start_mbpm) / num_increments) as i64
        } else {
            -(((args.start_mbpm - args.end_mbpm) / num_increments) as i64)
        };
        if args.duration_ms == 0 {
            proof {
                assert(sum * args.duration_ms == 0) by (nonlinear_arith)
                    requires
                        args.duration_ms == 0,
                ;
                vstd::arithmetic::div_mod::lemma_basic_div(60_000_000, 120_000_000);
            }
            assert(total_beats == 0);
        }
        let r = RampScheduler {
            args,
            total_beats,
            num_increments,
            delta_mbpm,
            beat: 0,
            current_mbpm: args.start_mbpm,
            anchor_ms: now_ms,
            stage: RampStage::BeatStart,
            incs: Ghost(0),
        };
        proof {
            assert(0int * ramp_delta_mbpm(args) == 0) by (nonlinear_arith);
            if ramp_total_beats(args) > 0 {
                assert(0int / (args.measures as int) == 0) by {
                    lemma_div_pos_is_pos(0, args.measures as int);
                    lemma_div_nonincreasing(0, args.measures as int);
                }
            }
        }
        r
    }

    /// The beat count of the ramp.
    pub fn total_beats(&self) -> (r: u64)
        ensures
            r == self.spec_total_beats(),
    {
        self.total_beats
    }

    /// The number of tempo steps the ramp takes.
    pub fn num_increments(&self) -> (r: u64)
        ensures
            r == self.spec_num_increments(),
    {
        self.num_increments
    }

    /// The tempo change of one step, in milli-bpm, truncated toward zero.
    pub fn increment_delta_mbpm(&self) -> (r: i64)
        ensures
            r == self.spec_delta_mbpm(),
    {
        self.delta_mbpm
    }

    /// The tempo currently in effect, in milli-bpm.
    pub fn current_mbpm(&self) -> (r: u64)
        ensures
            r == self.spec_current_mbpm(),
    {
        self.current_mbpm
    }

    /// Whether the ramp has ended, by completion or by a stop.
    pub fn is_done(&self) -> (r: bool)
        ensures
            r == (self.spec_stage() is Complete || self.spec_stage() is Halted),
    {
        match self.stage {
            RampStage::Complete => true,
            RampStage::Halted => true,
            _ => false,
        }
    }

    /// One step of the ramp, given the run state just observed and the
    /// monotonic clock. At the start of a beat: a finished span
    /// completes the ramp and publishes exactly the configured end
    /// tempo; `Stopped` unwinds the whole scheduler; `Running` emits a
    /// tick at the tempo in effect; `Paused` emits nothing. After the
    /// beat, while the operator holds the run paused the machine polls
    /// in fixed slices, `Stopped` unwinds immediately, and `Running`
    /// advances the anchor by one beat period — resynchronizing to "now"
    /// when behind — and steps and publishes the tempo after each full
    /// group of beats except the one ending the span.
    pub fn step(&mut self, observed: MetronomeState, now_ms: u64) -> (action: RampAction)
        requires
            old(self).wf(),
            old(self).spec_stage() is BeatStart || old(self).spec_stage() is Waiting,
        ensures
            final(self).wf(),
            final(self).spec_args() == old(self).spec_args(),
            ({
                let a = old(self).spec_args();
                let t = ramp_total_beats(a);
                let beat0 = old(self).spec_beat();
                let cur0 = old(self).spec_current_mbpm();
                let anchor0 = old(self).spec_anchor_ms();
                if old(self).spec_stage() is BeatStart {
                    if beat0 == t {
                        &&& action == (RampAction::FinishRamp { publish_mbpm: a.end_mbpm })
                        &&& final(self).spec_stage() is Complete
                        &&& stays_but_stage(*old(self), *final(self))
                    } else if observed is Stopped {
                        &&& action == RampAction::Abort
                        &&& final(self).spec_stage() is Halted
                        &&& stays_but_stage(*old(self), *final(self))
                    } else if observed is Running {
                        &&& action == (RampAction::Tick { tempo_mbpm: cur0 })
                        &&& final(self).spec_stage() is Waiting
                        &&& stays_but_stage(*old(self), *final(self))
                    } else {
                        &&& action == RampAction::PausePoll
                        &&& final(self).spec_stage() is Waiting
                        &&& stays_but_stage(*old(self), *final(self))
                    }
                } else {
                    if observed is Stopped {
                        &&& action == RampAction::Abort
                        &&& final(self).spec_stage() is Halted
                        &&& stays_but_stage(*old(self), *final(self))
                    } else if observed is Paused {
                        &&& action == RampAction::PausePoll
                        &&& final(self).spec_stage() is Waiting
                        &&& stays_but_stage(*old(self), *final(self))
                    } else {
                        let period = spec_beat_period_ms(cur0);
                        let fire = spec_fires(a, beat0 as int);
                        &&& action matches RampAction::Advance { sleep_ms, publish }
                        &&& sleep_ms == spec_sleep_ms(anchor0, period, now_ms)
                        &&& publish == (if fire {
                            Option::Some(final(self).spec_current_mbpm())
                        } else {
                            Option::<u64>::None
                        })
                        &&& final(self).spec_anchor_ms() == spec_next_anchor(anchor0, period, now_ms)
                        &&& final(self).spec_beat() == beat0 + 1
                        &&& final(self).spec_current_mbpm() == if fire {
                            cur0 + ramp_delta_mbpm(a)
                        } else {
                            cur0 as int
                        }
                        &&& final(self).spec_stage() is BeatStart
                    }
                }
            }),
            action matches RampAction::FinishRamp { publish_mbpm } ==> publish_mbpm == old(
                self,
            ).spec_args().end_mbpm,
            action matches RampAction::Tick { tempo_mbpm } ==> 1 <= tempo_mbpm <= MAX_MBPM,
            action matches RampAction::Advance { sleep_ms, publish } ==> (publish matches Some(p)
                ==> 1 <= p <= MAX_MBPM),
    {
        proof {
            lemma_ramp_tempo_range(self.args, self.incs@);
            lemma_ramp_totals_bounds(self.args);
        }
        match self.stage {
            RampStage::BeatStart => {
                if self.beat == self.total_beats {
                    self.stage = RampStage::Complete;
                    RampAction::FinishRamp { publish_mbpm: self.args.end_mbpm }
                } else {
                    match observed {
                        MetronomeState::Stopped => {
                            self.stage = RampStage::Halted;
                            RampAction::Abort
                        },
                        MetronomeState::Running => {
                            self.stage = RampStage::Waiting;
                            RampAction::Tick { tempo_mbpm: self.current_mbpm }
                        },
                        MetronomeState::Paused => {
                            self.stage = RampStage::Waiting;
                            RampAction::PausePoll
                        },
                    }
                }
            },
            RampStage::Waiting => {
                match observed {
                    MetronomeState::Stopped => {
                        self.stage = RampStage::Halted;
                        RampAction::Abort
                    },
                    MetronomeState::Paused => RampAction::PausePoll,
                    MetronomeState::Running => {
                        let period = beat_period_ms(self.current_mbpm);
                        let target = if self.anchor_ms <= u64::MAX - period {
                            self.anchor_ms + period
                        } else {
                            u64::MAX
                        };
                        let sleep_ms = if target > now_ms {
                            target - now_ms
                        } else {
                            0
                        };
                        self.anchor_ms = if target > now_ms {
                            target
                        } else {
                            now_ms
                        };
                        let b = self.beat;
                        self.beat = b + 1;
                        let m = self.args.measures as u64;
                        let publish: Option<u64>;
                        if (b + 1) % m == 0 && b + 1 < self.total_beats {
                            proof {
                                lemma_incs_at_fire(b as int, m as int);
                                lemma_div_is_ordered(
                                    b as int + 1,
                                    self.total_beats as int,
                                    m as int,
                                );
                                lemma_ramp_tempo_range(self.args, self.incs@ + 1);
                                assert((self.incs@ + 1) * ramp_delta_mbpm(self.args) == self.incs@
                                    * ramp_delta_mbpm(self.args) + ramp_delta_mbpm(self.args))
                                    by (nonlinear_arith)
                                ;
                            }
                            let nc = if self.delta_mbpm >= 0 {
                                self.current_mbpm + (self.delta_mbpm as u64)
                            } else {
                                self.current_mbpm - ((-self.delta_mbpm) as u64)
                            };
                            self.current_mbpm = nc;
                            self.incs = Ghost(self.incs@ + 1);
                            publish = Some(nc);
                        } else {
                            proof {
                                if b as int + 1 < self.total_beats as int {
                                    lemma_incs_no_fire(b as int, m as int);
                                }
                            }
                            publish = None;
                        }
                        self.stage = RampStage::BeatStart;
                        RampAction::Advance { sleep_ms, publish }
                    },
                }
            },
            RampStage::Complete | RampStage::Halted => {
                proof {
                    assert(false);
                }
                RampAction::Abort
            },
        }
    }
}

/// Everything of the ramp machine but its stage is the same in `pre`
/// and `post`.
pub open spec fn stays_but_stage(pre: RampScheduler, post: RampScheduler) -> bool {
    &&& post.spec_args() == pre.spec_args()
    &&& post.spec_beat() == pre.spec_beat()
    &&& post.spec_current_mbpm() == pre.spec_current_mbpm()
    &&& post.spec_anchor_ms() == pre.spec_anchor_ms()
    &&& post.spec_incs() == pre.spec_incs()
}

/// What the caller performs after one steady-phase step.
#[derive(Clone, Copy, Debug, PartialEq, Eq, Structural)]
pub enum SteadyAction {
    /// Emit one tick, then sleep to the next beat anchor, then step
    /// again with a fresh tempo from the store.
    Tick { sleep_ms: u64 },
    /// Sleep one pause slice (`PAUSE_POLL_MS`), then step again.
    PausePoll,
    /// The run was stopped: the scheduler is finished.
    Finished,
}

/// The steady-phase machine: beats at whatever tempo the store holds,
/// read afresh every beat, until the run is stopped. Across a pause the
/// anchor is reset to "now", so no backlog of skipped beats accumulates.
pub struct SteadyScheduler {
    anchor_ms: u64,
    resync: bool,
}

impl SteadyScheduler {
    /// The anchor the next beat is scheduled against.
    pub closed spec fn spec_anchor_ms(self) -> u64 {
        self.anchor_ms
    }

    /// Whether the machine just slept through a pause slice and must
    /// re-anchor at "now" before the next beat.
    pub closed spec fn spec_resync(self) -> bool {
        self.resync
    }

    /// A steady machine anchored at `now_ms`.
    pub fn new(now_ms: u64) -> (r: SteadyScheduler)
        ensures
            r.spec_anchor_ms() == now_ms,
            !r.spec_resync(),
    {
        SteadyScheduler { anchor_ms: now_ms, resync: false }
    }

    /// One step of the steady phase, given the run state just observed,
    /// the tempo the store holds right now, and the monotonic clock.
    /// `Stopped` finishes the scheduler at once; `Paused` waits one
    /// slice and marks the anchor for resynchronization; `Running` emits
    /// a tick and advances the anchor by one period of the live tempo —
    /// from "now" when resuming out of a pause, and resynchronizing to
    /// "now" when behind schedule.
    pub fn step(&mut self, observed: MetronomeState, tempo_mbpm: u64, now_ms: u64) -> (action:
        SteadyAction)
        requires
            tempo_mbpm >= 1,
        ensures
            ({
                let base = if old(self).spec_resync() {
                    now_ms
                } else {
                    old(self).spec_anchor_ms()
                };
                let period = spec_beat_period_ms(tempo_mbpm);
                if observed is Stopped {
                    &&& action == SteadyAction::Finished
                    &&& *final(self) == *old(self)
                } else if observed is Paused {
                    &&& action == SteadyAction::PausePoll
                    &&& final(self).spec_resync()
                    &&& final(self).spec_anchor_ms() == old(self).spec_anchor_ms()
                } else {
                    &&& action matches SteadyAction::Tick { sleep_ms } && sleep_ms
                        == spec_sleep_ms(base, period, now_ms)
                    &&& final(self).spec_anchor_ms() == spec_next_anchor(base, period, now_ms)
                    &&& !final(self).spec_resync()
                }
            }),
    {
        match observed {
            MetronomeState::Stopped => SteadyAction::Finished,
            MetronomeState::Paused => {
                self.resync = true;
                SteadyAction::PausePoll
            },
            MetronomeState::Running => {
                let base = if self.resync {
                    now_ms
                } else {
                    self.anchor_ms
                };
                let period = beat_period_ms(tempo_mbpm);
                let target = if base <= u64::MAX - period {
                    base + period
                } else {
                    u64::MAX
                };
                let sleep_ms = if target > now_ms {
                    target - now_ms
                } else {
                    0
                };
                self.anchor_ms = if target > now_ms {
                    target
                } else {
                    now_ms
                };
                self.resync = false;
                SteadyAction::Tick { sleep_ms }
            },
        }
    }
}

} // verus!

