//! A timed model of a raw digital input line.
//!
//! A [`RawSignal`] is the history of one input: the level it started at and
//! the instants (milliseconds since boot) at which the level flipped. The
//! debounce logic in [`crate::button`] is defined, and verified, over this
//! history; the driver that owns the pins records the history it observes.

use vstd::prelude::*;

verus! {

/// Largest instant the model admits, leaving headroom so that an instant
/// plus a debounce window never overflows a `u64`.
pub const MAX_INSTANT_MS: u64 = 0x7FFF_FFFF_FFFF_FFFF;

/// Logic level of a digital input. The buttons idle `High` (pull-up) and
/// read `Low` while pressed.
#[derive(PartialEq, Eq, Structural, Clone, Copy, Debug)]
pub enum Level {
    Low,
    High,
}

/// The other level.
pub open spec fn opposite(level: Level) -> Level {
    if level == Level::Low {
        Level::High
    } else {
        Level::Low
    }
}

/// The level an initial one has become after flipping `n` times.
pub open spec fn toggled(initial: Level, n: nat) -> Level {
    if n % 2 == 0 {
        initial
    } else {
        opposite(initial)
    }
}

/// How many flip instants in `flips` have happened by `t_ms` (a flip at
/// exactly `t_ms` counts as having taken effect).
pub open spec fn count_upto(flips: Seq<u64>, t_ms: u64) -> nat
    decreases flips.len(),
{
    if flips.len() == 0 {
        0
    } else {
        count_upto(flips.drop_last(), t_ms) + if flips.last() <= t_ms {
            1nat
        } else {
            0nat
        }
    }
}

/// When every flip has happened by `t_ms`, all of them are counted.
pub proof fn lemma_count_upto_all(flips: Seq<u64>, t_ms: u64)
    requires
        forall|i: int| 0 <= i < flips.len() ==> flips[i] <= t_ms,
    ensures
        count_upto(flips, t_ms) == flips.len(),
    decreases flips.len(),
{
    if flips.len() > 0 {
        assert forall|i: int| 0 <= i < flips.drop_last().len() implies flips.drop_last()[i]
            <= t_ms by {
            assert(flips.drop_last()[i] == flips[i]);
        }
        lemma_count_upto_all(flips.drop_last(), t_ms);
    }
}

/// The recorded history of one raw input line.
pub struct RawSignal {
    /// Level of the line before the first flip.
    pub initial: Level,
    /// Instants at which the level flipped, in order.
    pub flips: Vec<u64>,
}

impl RawSignal {
    /// Flip instants strictly increase and stay in range.
    pub open spec fn wf(&self) -> bool {
        &&& forall|i: int, j: int|
            0 <= i < j < self.flips@.len() ==> self.flips@[i] < self.flips@[j]
        &&& forall|i: int| 0 <= i < self.flips@.len() ==> self.flips@[i] <= MAX_INSTANT_MS
    }

    /// The level of the line at `t_ms`.
    pub open spec fn spec_level_at(&self, t_ms: u64) -> Level {
        toggled(self.initial, count_upto(self.flips@, t_ms))
    }

    /// The level the line moves to at flip index `i`.
    pub open spec fn level_after_flip(&self, i: int) -> Level {
        toggled(self.initial, (i + 1) as nat)
    }

    /// Samples the line at `t_ms`.
    pub fn level_at(&self, t_ms: u64) -> (level: Level)
        ensures
            level == self.spec_level_at(t_ms),
    {
        let mut n: usize = 0;
        let mut i: usize = 0;
        while i < self.flips.len()
            invariant
                i <= self.flips@.len(),
                n <= i,
                n == count_upto(self.flips@.take(i as int), t_ms),
            decreases self.flips@.len() - i,
        {
            assert(self.flips@.take(i as int + 1).drop_last() =~= self.flips@.take(i as int));
            assert(self.flips@.take(i as int + 1).last() == self.flips@[i as int]);
            if self.flips[i] <= t_ms {
                n = n + 1;
            }
            i = i + 1;
        }
        assert(self.flips@.take(i as int) =~= self.flips@);
        if n % 2 == 0 {
            self.initial
        } else if self.initial == Level::Low {
            Level::High
        } else {
            Level::Low
        }
    }
}

} // verus!
