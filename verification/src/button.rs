//! Debounced button input.
//!
//! A validated press is detected from the raw history as the algorithm on
//! the hardware does it: wait for an edge to the asserted level, remember
//! the edge instant as a candidate, let the debounce window pass, then
//! re-sample the line; only if the line still reads the asserted level is
//! the candidate reported, otherwise the search resumes after the sample.
//! A release is symmetric, on the edge back to the idle level.
//!
//! [`Button::measure_minimal_debounce`] is the calibration step that picks a
//! safe window from observed bounce behaviour.

use vstd::prelude::*;

use crate::signal::{lemma_count_upto_all, opposite, Level, RawSignal, MAX_INSTANT_MS};

verus! {

/// Debounce window a button starts with, measured once with
/// [`Button::measure_minimal_debounce`] on the real hardware.
pub const MINIMAL_DEBOUNCE_TIME: u64 = 50;

/// Floor of the calibrated debounce window: a perfectly clean test signal
/// must still not yield an unsafely small window.
pub const MIN_DEBOUNCE_DEFAULT_IN_TEST: u64 = 150;

/// Largest debounce window the model admits; an instant plus a window never
/// overflows a `u64`.
pub const MAX_DEBOUNCE_MS: u64 = 0x1_0000_0000;

/// Which player a button (and its score and LED) belongs to.
#[derive(PartialEq, Eq, Structural, Clone, Copy, Debug, Hash)]
pub enum ButtonRole {
    Player1,
    Player2,
}

/// A push-button: its role and its debounce window in milliseconds. The
/// input pin itself stays with the driver, which hands the recorded raw
/// history in as a [`RawSignal`].
pub struct Button {
    pub role: ButtonRole,
    pub debounce: u64,
}

/// The validated-edge search, started at flip index `i` with the wait
/// beginning at `from_ms`: the first flip at or after `from_ms` that moves
/// the line to `target` becomes a candidate; if the line still reads
/// `target` one debounce window later the candidate instant is the result,
/// otherwise the search resumes at the sample instant. `None` means the
/// history runs out without a validated edge (the wait never returns).
pub open spec fn spec_wait_for_level(
    sig: RawSignal,
    debounce_ms: u64,
    target: Level,
    i: nat,
    from_ms: u64,
) -> Option<u64>
    decreases sig.flips@.len() - i,
{
    if i >= sig.flips@.len() {
        None
    } else if sig.flips@[i as int] < from_ms || sig.level_after_flip(i as int) != target {
        spec_wait_for_level(sig, debounce_ms, target, i + 1, from_ms)
    } else {
        let candidate: u64 = sig.flips@[i as int];
        let sample_ms: u64 = (candidate + debounce_ms) as u64;
        if sig.spec_level_at(sample_ms) == target {
            Some(candidate)
        } else {
            spec_wait_for_level(sig, debounce_ms, target, i + 1, sample_ms)
        }
    }
}

/// A full press-and-release measurement: a validated press, then a
/// validated release whose wait begins when the press wait returns (one
/// debounce window after the press instant). The result is the release
/// instant.
pub open spec fn spec_full_press_release(sig: RawSignal, debounce_ms: u64, from_ms: u64) -> Option<
    u64,
> {
    match spec_wait_for_level(sig, debounce_ms, Level::Low, 0, from_ms) {
        None => None,
        Some(press_ms) => spec_wait_for_level(
            sig,
            debounce_ms,
            Level::High,
            0,
            (press_ms + debounce_ms) as u64,
        ),
    }
}

/// A validated edge is a real flip to the target level, no earlier than the
/// start of the wait, and the line still reads the target level one
/// debounce window after it.
pub proof fn lemma_validated_edge(
    sig: RawSignal,
    debounce_ms: u64,
    target: Level,
    i: nat,
    from_ms: u64,
    c: u64,
)
    requires
        sig.wf(),
        0 < debounce_ms <= MAX_DEBOUNCE_MS,
        i <= sig.flips@.len(),
        spec_wait_for_level(sig, debounce_ms, target, i, from_ms) == Some(c),
    ensures
        exists|j: int|
            i <= j < sig.flips@.len() && sig.flips@[j] == c && sig.level_after_flip(j) == target,
        c >= from_ms,
        c <= MAX_INSTANT_MS,
        sig.spec_level_at((c + debounce_ms) as u64) == target,
    decreases sig.flips@.len() - i,
{
    let fi: u64 = sig.flips@[i as int];
    if fi < from_ms || sig.level_after_flip(i as int) != target {
        lemma_validated_edge(sig, debounce_ms, target, i + 1, from_ms, c);
    } else {
        let sample_ms: u64 = (fi + debounce_ms) as u64;
        if sig.spec_level_at(sample_ms) == target {
            assert(sig.flips@[i as int] == c && sig.level_after_flip(i as int) == target);
        } else {
            lemma_validated_edge(sig, debounce_ms, target, i + 1, sample_ms, c);
            assert(sample_ms == fi + debounce_ms);
        }
    }
}

/// Bounces too short for the window are filtered. When every raw flip of
/// the history lies within a span shorter than the debounce window and the
/// line ends back at the level it started from, the wait for the opposite
/// level validates no edge at all, wherever the wait begins.
pub proof fn lemma_short_bounce_filtered(
    sig: RawSignal,
    debounce_ms: u64,
    target: Level,
    from_ms: u64,
    a: u64,
    b: u64,
)
    requires
        sig.wf(),
        0 < debounce_ms <= MAX_DEBOUNCE_MS,
        forall|k: int| 0 <= k < sig.flips@.len() ==> a <= #[trigger] sig.flips@[k] <= b,
        b < a + debounce_ms,
        sig.flips@.len() % 2 == 0,
        target != sig.initial,
    ensures
        spec_wait_for_level(sig, debounce_ms, target, 0, from_ms) is None,
{
    lemma_short_bounce_filtered_from(sig, debounce_ms, target, 0, from_ms, a, b);
}

proof fn lemma_short_bounce_filtered_from(
    sig: RawSignal,
    debounce_ms: u64,
    target: Level,
    i: nat,
    from_ms: u64,
    a: u64,
    b: u64,
)
    requires
        sig.wf(),
        0 < debounce_ms <= MAX_DEBOUNCE_MS,
        forall|k: int| 0 <= k < sig.flips@.len() ==> a <= #[trigger] sig.flips@[k] <= b,
        b < a + debounce_ms,
        sig.flips@.len() % 2 == 0,
        target != sig.initial,
        i <= sig.flips@.len(),
    ensures
        spec_wait_for_level(sig, debounce_ms, target, i, from_ms) is None,
    decreases sig.flips@.len() - i,
{
    if i < sig.flips@.len() {
        let fi: u64 = sig.flips@[i as int];
        if fi < from_ms || sig.level_after_flip(i as int) != target {
            lemma_short_bounce_filtered_from(sig, debounce_ms, target, i + 1, from_ms, a, b);
        } else {
            let sample_ms: u64 = (fi + debounce_ms) as u64;
            assert(fi + debounce_ms <= u64::MAX);
            assert(sample_ms > b);
            lemma_count_upto_all(sig.flips@, sample_ms);
            assert(sig.spec_level_at(sample_ms) == sig.initial);
            lemma_short_bounce_filtered_from(sig, debounce_ms, target, i + 1, sample_ms, a, b);
        }
    }
}

/// The opposite level, as a runtime value.
fn flip_level(level: Level) -> (r: Level)
    ensures
        r == opposite(level),
{
    if level == Level::Low {
        Level::High
    } else {
        Level::Low
    }
}

/// Runs the validated-edge search over a recorded history.
fn find_validated_edge(
    sig: &RawSignal,
    debounce_ms: u64,
    target: Level,
    i: usize,
    from_ms: u64,
) -> (r: Option<u64>)
    requires
        sig.wf(),
        0 < debounce_ms <= MAX_DEBOUNCE_MS,
        i <= sig.flips@.len(),
    ensures
        r == spec_wait_for_level(*sig, debounce_ms, target, i as nat, from_ms),
    decreases sig.flips@.len() - i,
{
    if i >= sig.flips.len() {
        return None;
    }
    let fi: u64 = sig.flips[i];
    let after: Level = if i % 2 == 1 {
        sig.initial
    } else {
        flip_level(sig.initial)
    };
    assert(after == sig.level_after_flip(i as int));
    if fi < from_ms || after != target {
        return find_validated_edge(sig, debounce_ms, target, i + 1, from_ms);
    }
    let sample_ms: u64 = fi + debounce_ms;
    if sig.level_at(sample_ms) == target {
        Some(fi)
    } else {
        find_validated_edge(sig, debounce_ms, target, i + 1, sample_ms)
    }
}

/// A calibration trace: transition instants observed in order, within the
/// model's instant range.
pub open spec fn wf_trace(times: Seq<u64>) -> bool {
    &&& forall|i: int| 0 <= i && i + 1 < times.len() ==> #[trigger] times[i] <= times[i + 1]
    &&& forall|i: int| 0 <= i < times.len() ==> times[i] <= MAX_INSTANT_MS
}

/// The longest interval between consecutive observed transitions of one
/// calibration iteration; zero when fewer than two transitions were seen.
pub open spec fn longest_gap(times: Seq<u64>) -> int
    decreases times.len(),
{
    if times.len() < 2 {
        0
    } else {
        let d: int = times.last() - times[times.len() - 2];
        let rest: int = longest_gap(times.drop_last());
        if d > rest {
            d
        } else {
            rest
        }
    }
}

/// The largest per-iteration longest bounce interval over all calibration
/// iterations.
pub open spec fn max_longest_gap(traces: Seq<Vec<u64>>) -> int
    decreases traces.len(),
{
    if traces.len() == 0 {
        0
    } else {
        let d: int = longest_gap(traces.last()@);
        let rest: int = max_longest_gap(traces.drop_last());
        if d > rest {
            d
        } else {
            rest
        }
    }
}

/// The calibrated window: the observed maximum bounce interval plus a ten
/// percent safety margin, floored at [`MIN_DEBOUNCE_DEFAULT_IN_TEST`].
pub open spec fn spec_calibrated_debounce(traces: Seq<Vec<u64>>) -> int {
    let m: int = max_longest_gap(traces);
    let scaled: int = m + m / 10;
    if scaled < MIN_DEBOUNCE_DEFAULT_IN_TEST {
        MIN_DEBOUNCE_DEFAULT_IN_TEST as int
    } else {
        scaled
    }
}

impl Button {
    /// The debounce window is positive and small enough that an instant
    /// plus a window never overflows.
    pub open spec fn wf(&self) -> bool {
        0 < self.debounce <= MAX_DEBOUNCE_MS
    }

    /// A button with the measured default debounce window.
    pub fn new(role: ButtonRole) -> (b: Button)
        ensures
            b.role == role,
            b.debounce == MINIMAL_DEBOUNCE_TIME,
            b.wf(),
    {
        Button { role, debounce: MINIMAL_DEBOUNCE_TIME }
    }

    /// A button with an explicitly chosen debounce window.
    pub fn new_with_debounce(role: ButtonRole, debounce_ms: u64) -> (b: Button)
        requires
            0 < debounce_ms <= MAX_DEBOUNCE_MS,
        ensures
            b.role == role,
            b.debounce == debounce_ms,
            b.wf(),
    {
        Button { role, debounce: debounce_ms }
    }

    pub fn role(&self) -> (r: ButtonRole)
        ensures
            r == self.role,
    {
        self.role
    }

    /// The first validated press of the recorded history, waiting from
    /// `from_ms`: the instant of the falling edge that still reads `Low`
    /// one debounce window later. `None` when the history holds no such
    /// edge — the wait would simply not have returned.
    pub fn wait_for_press(&self, sig: &RawSignal, from_ms: u64) -> (r: Option<u64>)
        requires
            self.wf(),
            sig.wf(),
        ensures
            r == spec_wait_for_level(*sig, self.debounce, Level::Low, 0, from_ms),
            r.is_some() ==> r.unwrap() >= from_ms && r.unwrap() <= MAX_INSTANT_MS
                && sig.spec_level_at((r.unwrap() + self.debounce) as u64) == Level::Low,
            r.is_some() ==> exists|j: int|
                0 <= j < sig.flips@.len() && sig.flips@[j] == r.unwrap() && sig.level_after_flip(j)
                    == Level::Low,
    {
        let r: Option<u64> = find_validated_edge(sig, self.debounce, Level::Low, 0, from_ms);
        proof {
            if r.is_some() {
                lemma_validated_edge(*sig, self.debounce, Level::Low, 0, from_ms, r.unwrap());
            }
        }
        r
    }

    /// The first validated release, symmetric to [`Button::wait_for_press`]
    /// on the rising edge.
    pub fn wait_for_release(&self, sig: &RawSignal, from_ms: u64) -> (r: Option<u64>)
        requires
            self.wf(),
            sig.wf(),
        ensures
            r == spec_wait_for_level(*sig, self.debounce, Level::High, 0, from_ms),
            r.is_some() ==> r.unwrap() >= from_ms && r.unwrap() <= MAX_INSTANT_MS
                && sig.spec_level_at((r.unwrap() + self.debounce) as u64) == Level::High,
            r.is_some() ==> exists|j: int|
                0 <= j < sig.flips@.len() && sig.flips@[j] == r.unwrap() && sig.level_after_flip(j)
                    == Level::High,
    {
        let r: Option<u64> = find_validated_edge(sig, self.debounce, Level::High, 0, from_ms);
        proof {
            if r.is_some() {
                lemma_validated_edge(*sig, self.debounce, Level::High, 0, from_ms, r.unwrap());
            }
        }
        r
    }

    /// A validated press followed by a validated release; the result is the
    /// release instant. The release wait begins when the press wait
    /// returns, one debounce window after the press instant.
    pub fn measure_full_press_release(&self, sig: &RawSignal, from_ms: u64) -> (r: Option<u64>)
        requires
            self.wf(),
            sig.wf(),
        ensures
            r == spec_full_press_release(*sig, self.debounce, from_ms),
            r.is_some() ==> r.unwrap() <= MAX_INSTANT_MS,
    {
        match self.wait_for_press(sig, from_ms) {
            None => None,
            Some(press_ms) => {
                let resume_ms: u64 = press_ms + self.debounce;
                self.wait_for_release(sig, resume_ms)
            },
        }
    }

    /// A validated press alone, used for the "start the match" gesture.
    pub fn wait_for_full_press(&self, sig: &RawSignal, from_ms: u64) -> (r: Option<u64>)
        requires
            self.wf(),
            sig.wf(),
        ensures
            r == spec_wait_for_level(*sig, self.debounce, Level::Low, 0, from_ms),
    {
        self.wait_for_press(sig, from_ms)
    }

    /// The calibration computation. Each trace holds the transition
    /// instants observed while polling the raw line during one test
    /// iteration; the result is the longest observed bounce interval plus a
    /// ten percent margin, floored at [`MIN_DEBOUNCE_DEFAULT_IN_TEST`] so a
    /// clean signal still yields a safe window.
    pub fn measure_minimal_debounce(&self, traces: &Vec<Vec<u64>>) -> (r: u64)
        requires
            forall|k: int| 0 <= k < traces@.len() ==> wf_trace(#[trigger] traces@[k]@),
        ensures
            r == spec_calibrated_debounce(traces@),
            r >= max_longest_gap(traces@),
            r >= MIN_DEBOUNCE_DEFAULT_IN_TEST,
    {
        let mut m: u64 = 0;
        let mut k: usize = 0;
        while k < traces.len()
            invariant
                k <= traces@.len(),
                m <= MAX_INSTANT_MS,
                m == max_longest_gap(traces@.take(k as int)),
                forall|t: int| 0 <= t < traces@.len() ==> wf_trace(#[trigger] traces@[t]@),
            decreases traces@.len() - k,
        {
            let trace: &Vec<u64> = &traces[k];
            let mut lg: u64 = 0;
            if trace.len() >= 2 {
                let mut j: usize = 1;
                while j < trace.len()
                    invariant
                        1 <= j <= trace@.len(),
                        lg <= MAX_INSTANT_MS,
                        lg == longest_gap(trace@.take(j as int)),
                        wf_trace(trace@),
                    decreases trace@.len() - j,
                {
                    assert(trace@.take(j as int + 1).drop_last() =~= trace@.take(j as int));
                    assert(trace@.take(j as int + 1).last() == trace@[j as int]);
                    let d: u64 = trace[j] - trace[j - 1];
                    if d > lg {
                        lg = d;
                    }
                    j = j + 1;
                }
                assert(trace@.take(j as int) =~= trace@);
            }
            assert(lg == longest_gap(trace@));
            assert(traces@.take(k as int + 1).drop_last() =~= traces@.take(k as int));
            assert(traces@.take(k as int + 1).last() == traces@[k as int]);
            if lg > m {
                m = lg;
            }
            k = k + 1;
        }
        assert(traces@.take(k as int) =~= traces@);
        let scaled: u64 = m + m / 10;
        if scaled < MIN_DEBOUNCE_DEFAULT_IN_TEST {
            MIN_DEBOUNCE_DEFAULT_IN_TEST
        } else {
            scaled
        }
    }
}

} // verus!
