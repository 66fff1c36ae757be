//! The shared tempo value and the operator commands that change it.
//!
//! Tempo is held in milli-beats-per-minute (mbpm): one beat per minute is
//! 1000 mbpm. The store never holds a non-positive tempo; every writer
//! rejects such a value before it reaches the store. Manual tempo entry is
//! a decimal literal (digits with at most one dot); anything else, and any
//! value below one milli-bpm, is discarded without touching the store.

use vstd::prelude::*;

verus! {

/// Milli-bpm in one beat per minute.
pub const MBPM_PER_BPM: u64 = 1000;

/// Whether `c` is a decimal digit.
pub open spec fn is_digit(c: char) -> bool {
    48 <= c as u32 <= 57
}

/// The value of the decimal digit `c`.
pub open spec fn digit_value(c: char) -> int {
    c as u32 - 48
}

/// The index of the first dot in `s`, or `s.len()` if there is none.
pub open spec fn spec_first_dot(s: Seq<char>) -> int
    decreases s.len(),
{
    if s.len() == 0 {
        0
    } else if s[0] == '.' {
        0
    } else {
        1 + spec_first_dot(s.drop_first())
    }
}

/// The integer denoted by a sequence of decimal digits, most significant
/// first; the empty sequence denotes zero.
pub open spec fn digits_value(s: Seq<char>) -> int
    decreases s.len(),
{
    if s.len() == 0 {
        0
    } else {
        digits_value(s.drop_last()) * 10 + digit_value(s.last())
    }
}

/// The milli-bpm contribution of the fractional digits `s`: the first
/// three digits weigh 100, 10, and 1 milli-bpm; finer digits are below
/// the store's resolution and are ignored.
pub open spec fn frac_value_mbpm(s: Seq<char>) -> int {
    if s.len() == 0 {
        0
    } else if s.len() == 1 {
        digit_value(s[0]) * 100
    } else if s.len() == 2 {
        digit_value(s[0]) * 100 + digit_value(s[1]) * 10
    } else {
        digit_value(s[0]) * 100 + digit_value(s[1]) * 10 + digit_value(s[2])
    }
}

/// Whether `s` is a decimal tempo literal: only digits and at most one
/// dot, with at least one digit.
pub open spec fn is_tempo_literal(s: Seq<char>) -> bool {
    let fd = spec_first_dot(s);
    &&& forall|j: int| 0 <= j < fd ==> is_digit(#[trigger] s[j])
    &&& forall|j: int| fd < j < s.len() ==> is_digit(#[trigger] s[j])
    &&& s.len() >= 1
    &&& (fd < s.len() ==> s.len() >= 2)
}

/// The milli-bpm value a tempo literal denotes: the integer part in whole
/// bpm plus up to three fractional digits.
pub open spec fn tempo_literal_mbpm(s: Seq<char>) -> int {
    let fd = spec_first_dot(s);
    let int_digits = s.take(fd);
    let frac_digits = if fd < s.len() {
        s.skip(fd + 1)
    } else {
        Seq::<char>::empty()
    };
    digits_value(int_digits) * 1000 + frac_value_mbpm(frac_digits)
}

/// The first dot lies within the sequence, nothing before it is a dot,
/// and it is a dot itself if it lies strictly inside.
proof fn lemma_first_dot_props(s: Seq<char>)
    ensures
        0 <= spec_first_dot(s) <= s.len(),
        spec_first_dot(s) < s.len() ==> s[spec_first_dot(s)] == '.',
        forall|j: int| 0 <= j < spec_first_dot(s) ==> #[trigger] s[j] != '.',
    decreases s.len(),
{
    if s.len() > 0 && s[0] != '.' {
        lemma_first_dot_props(s.drop_first());
        assert forall|j: int| 0 <= j < spec_first_dot(s) implies #[trigger] s[j] != '.' by {
            if j > 0 {
                assert(s.drop_first()[j - 1] == s[j]);
            }
        }
        assert(s.drop_first()[spec_first_dot(s) - 1] == s[spec_first_dot(s)] || spec_first_dot(s)
            == s.len());
    }
}

/// A position with no dot before it, and a dot at it or the end of the
/// sequence behind it, is the first dot.
proof fn lemma_first_dot_at(s: Seq<char>, i: int)
    requires
        0 <= i <= s.len(),
        forall|j: int| 0 <= j < i ==> #[trigger] s[j] != '.',
        i < s.len() ==> s[i] == '.',
    ensures
        spec_first_dot(s) == i,
    decreases s.len(),
{
    if s.len() > 0 && s[0] != '.' {
        let t = s.drop_first();
        assert forall|j: int| 0 <= j < i - 1 implies #[trigger] t[j] != '.' by {
            assert(t[j] == s[j + 1]);
        }
        assert(i - 1 < t.len() ==> t[i - 1] == s[i]);
        lemma_first_dot_at(t, i - 1);
    }
}

/// A digit sequence denotes a value at least zero.
proof fn lemma_digits_value_nonneg(s: Seq<char>)
    requires
        forall|j: int| 0 <= j < s.len() ==> is_digit(#[trigger] s[j]),
    ensures
        digits_value(s) >= 0,
    decreases s.len(),
{
    if s.len() > 0 {
        lemma_digits_value_nonneg(s.drop_last());
    }
}

/// Extending a digit prefix by one digit multiplies its value by ten and
/// adds the digit.
proof fn lemma_digits_value_step(s: Seq<char>, j: int)
    requires
        0 <= j < s.len(),
    ensures
        digits_value(s.take(j + 1)) == digits_value(s.take(j)) * 10 + digit_value(s[j]),
{
    assert(s.take(j + 1).drop_last() =~= s.take(j));
    assert(s.take(j + 1).last() == s[j]);
}

/// A longer digit prefix never denotes a smaller value.
proof fn lemma_digits_value_prefix_le(s: Seq<char>, j: int, k: int)
    requires
        0 <= j <= k <= s.len(),
        forall|m: int| 0 <= m < k ==> is_digit(#[trigger] s[m]),
    ensures
        digits_value(s.take(j)) <= digits_value(s.take(k)),
    decreases k - j,
{
    if j < k {
        lemma_digits_value_prefix_le(s, j, k - 1);
        lemma_digits_value_step(s, k - 1);
        assert forall|m: int| 0 <= m < s.take(k - 1).len() implies is_digit(
            #[trigger] s.take(k - 1)[m],
        ) by {
            assert(s.take(k - 1)[m] == s[m]);
        }
        lemma_digits_value_nonneg(s.take(k - 1));
        assert(digits_value(s.take(k - 1)) * 10 >= digits_value(s.take(k - 1))) by (nonlinear_arith)
            requires
                digits_value(s.take(k - 1)) >= 0,
        ;
    }
}

/// Parses a manual tempo entry. The entry is accepted exactly when it is
/// a decimal tempo literal whose value, truncated to milli-bpm, is at
/// least one and fits the machine word; otherwise nothing is returned and
/// the caller leaves the tempo unchanged.
pub fn parse_tempo_entry(chars: &Vec<char>) -> (r: Option<u64>)
    ensures
        ({
            let accepted = is_tempo_literal(chars@) && 1 <= tempo_literal_mbpm(chars@)
                <= u64::MAX;
            match r {
                Some(v) => accepted && v == tempo_literal_mbpm(chars@),
                None => !accepted,
            }
        }),
{
    let n = chars.len();
    proof {
        lemma_first_dot_props(chars@);
    }
    // Find the first dot.
    let mut fd: usize = 0;
    while fd < n && chars[fd] != '.'
        invariant
            0 <= fd <= n,
            n == chars@.len(),
            forall|j: int| 0 <= j < fd ==> #[trigger] chars@[j] != '.',
        decreases n - fd,
    {
        fd = fd + 1;
    }
    proof {
        lemma_first_dot_at(chars@, fd as int);
    }
    // Validate the shape: digits before and after one dot, one digit at least.
    if n == 0 {
        return None;
    }
    if fd < n && n < 2 {
        return None;
    }
    let mut j: usize = 0;
    while j < n
        invariant
            0 <= j <= n,
            n == chars@.len(),
            fd == spec_first_dot(chars@),
            0 <= fd <= n,
            forall|m: int| 0 <= m < j && m < fd ==> is_digit(#[trigger] chars@[m]),
            forall|m: int| fd < m < j ==> is_digit(#[trigger] chars@[m]),
        decreases n - j,
    {
        if j != fd {
            let u = chars[j] as u32;
            if !(48 <= u && u <= 57) {
                return None;
            }
        }
        j = j + 1;
    }
    // The integer part, in whole bpm.
    let ghost s = chars@;
    let mut acc: u64 = 0;
    let mut i: usize = 0;
    while i < fd
        invariant
            0 <= i <= fd <= n,
            n == chars@.len(),
            fd == spec_first_dot(chars@),
            forall|m: int| 0 <= m < fd ==> is_digit(#[trigger] chars@[m]),
            forall|m: int| fd < m < n ==> is_digit(#[trigger] chars@[m]),
            s == chars@,
            acc == digits_value(s.take(i as int)),
        decreases fd - i,
    {
        let d = (chars[i] as u32 - 48) as u64;
        proof {
            lemma_digits_value_step(s, i as int);
            lemma_digits_value_nonneg(s.take(i as int));
        }
        if acc > (u64::MAX - d) / 10 {
            // The integer part alone is beyond the machine word, so the
            // whole value is too.
            proof {
                assert(acc * 10 + d > u64::MAX) by (nonlinear_arith)
                    requires
                        acc > (u64::MAX - d) / 10,
                        0 <= d <= 9,
                ;
                lemma_digits_value_prefix_le(s, i as int + 1, fd as int);
                lemma_frac_digits(s);
                lemma_frac_value_bounds(frac_of(s));
                assert(digits_value(s.take(fd as int)) * 1000 >= digits_value(s.take(fd as int)))
                    by (nonlinear_arith)
                    requires
                        digits_value(s.take(fd as int)) > u64::MAX,
                ;
            }
            return None;
        }
        acc = acc * 10 + d;
        i = i + 1;
    }
    // The first three fractional digits, in milli-bpm.
    let mut frac: u64 = 0;
    proof {
        lemma_frac_digits(s);
    }
    if fd < n {
        let flen = n - fd - 1;
        proof {
            assert(frac_of(s).len() == flen);
        }
        if flen >= 1 {
            proof {
                assert(frac_of(s)[0] == s[fd as int + 1]);
            }
            frac = (chars[fd + 1] as u32 - 48) as u64 * 100;
        }
        if flen >= 2 {
            proof {
                assert(frac_of(s)[1] == s[fd as int + 2]);
            }
            frac = frac + (chars[fd + 2] as u32 - 48) as u64 * 10;
        }
        if flen >= 3 {
            proof {
                assert(frac_of(s)[2] == s[fd as int + 3]);
            }
            frac = frac + (chars[fd + 3] as u32 - 48) as u64;
        }
    }
    proof {
        assert(frac == frac_value_mbpm(frac_of(s)));
        lemma_frac_value_bounds(frac_of(s));
        lemma_digits_value_nonneg(s.take(fd as int));
        assert(is_tempo_literal(s));
        assert(tempo_literal_mbpm(s) == digits_value(s.take(fd as int)) * 1000 + frac_value_mbpm(
            frac_of(s),
        ));
    }
    // Assemble, rejecting values beyond the machine word or below one
    // milli-bpm.
    let scaled = match acc.checked_mul(1000) {
        Some(x) => x,
        None => {
            proof {
                assert(acc * 1000 + frac_value_mbpm(frac_of(s)) > u64::MAX) by (nonlinear_arith)
                    requires
                        acc * 1000 > u64::MAX,
                        frac_value_mbpm(frac_of(s)) >= 0,
                ;
            }
            return None;
        },
    };
    let total = match scaled.checked_add(frac) {
        Some(x) => x,
        None => {
            return None;
        },
    };
    if total == 0 {
        return None;
    }
    Some(total)
}

/// Every fractional position of a shape-checked entry holds a digit.
proof fn lemma_frac_digits(s: Seq<char>)
    requires
        forall|m: int| spec_first_dot(s) < m < s.len() ==> is_digit(#[trigger] s[m]),
    ensures
        forall|k: int| 0 <= k < frac_of(s).len() ==> is_digit(#[trigger] frac_of(s)[k]),
{
    let fd = spec_first_dot(s);
    lemma_first_dot_props(s);
    if fd < s.len() {
        assert forall|k: int| 0 <= k < frac_of(s).len() implies is_digit(
            #[trigger] frac_of(s)[k],
        ) by {
            assert(frac_of(s)[k] == s[fd + 1 + k]);
        }
    }
}

/// The fractional digits of `s`: what follows the first dot.
pub open spec fn frac_of(s: Seq<char>) -> Seq<char> {
    if spec_first_dot(s) < s.len() {
        s.skip(spec_first_dot(s) + 1)
    } else {
        Seq::<char>::empty()
    }
}

/// The fractional contribution is under one whole bpm and never negative.
proof fn lemma_frac_value_bounds(s: Seq<char>)
    requires
        forall|j: int| 0 <= j < s.len() ==> is_digit(#[trigger] s[j]),
    ensures
        0 <= frac_value_mbpm(s) <= 999,
{
}

/// The current tempo, in milli-bpm, read by the scheduler and the
/// renderer and written by the operator commands and the ramp. The store
/// always holds a positive tempo.
pub struct TempoStore {
    mbpm: u64,
}

impl TempoStore {
    /// The stored tempo in milli-bpm.
    pub closed spec fn spec_mbpm(self) -> u64 {
        self.mbpm
    }

    /// The store never holds less than one milli-bpm.
    pub open spec fn wf(self) -> bool {
        self.spec_mbpm() >= 1
    }

    /// A store holding `mbpm`.
    pub fn new(mbpm: u64) -> (r: TempoStore)
        requires
            mbpm >= 1,
        ensures
            r.wf(),
            r.spec_mbpm() == mbpm,
    {
        TempoStore { mbpm }
    }

    /// The latest committed tempo.
    pub fn get(&self) -> (r: u64)
        ensures
            r == self.spec_mbpm(),
    {
        self.mbpm
    }

    /// Commits `mbpm` as the current tempo; the last write wins.
    pub fn set(&mut self, mbpm: u64)
        requires
            mbpm >= 1,
        ensures
            final(self).wf(),
            final(self).spec_mbpm() == mbpm,
    {
        self.mbpm = mbpm;
    }

    /// Raises the tempo by one bpm; there is no bound short of the
    /// machine word, at which the tempo stays put.
    pub fn increase_one(&mut self)
        requires
            old(self).wf(),
        ensures
            final(self).wf(),
            final(self).spec_mbpm() == if old(self).spec_mbpm() + MBPM_PER_BPM <= u64::MAX {
                old(self).spec_mbpm() + MBPM_PER_BPM
            } else {
                old(self).spec_mbpm() as int
            },
    {
        if self.mbpm <= u64::MAX - MBPM_PER_BPM {
            self.mbpm = self.mbpm + MBPM_PER_BPM;
        }
    }

    /// Lowers the tempo by one bpm, refused when the result would be at
    /// or below one bpm.
    pub fn decrease_one(&mut self)
        requires
            old(self).wf(),
        ensures
            final(self).wf(),
            final(self).spec_mbpm() == if old(self).spec_mbpm() > 2 * MBPM_PER_BPM {
                old(self).spec_mbpm() - MBPM_PER_BPM
            } else {
                old(self).spec_mbpm() as int
            },
    {
        if self.mbpm > 2 * MBPM_PER_BPM {
            self.mbpm = self.mbpm - MBPM_PER_BPM;
        }
    }

    /// Applies a manual tempo entry: the tempo becomes the entered value
    /// exactly when the entry parses to a positive tempo, and is left
    /// unchanged otherwise. Returns the value applied, if any.
    pub fn apply_manual_entry(&mut self, chars: &Vec<char>) -> (r: Option<u64>)
        requires
            old(self).wf(),
        ensures
            final(self).wf(),
            ({
                let accepted = is_tempo_literal(chars@) && 1 <= tempo_literal_mbpm(chars@)
                    <= u64::MAX;
                match r {
                    Some(v) => accepted && v == tempo_literal_mbpm(chars@)
                        && final(self).spec_mbpm() == v,
                    None => !accepted && *final(self) == *old(self),
                }
            }),
    {
        match parse_tempo_entry(chars) {
            Some(v) => {
                self.set(v);
                Some(v)
            },
            None => None,
        }
    }
}

} // verus!
