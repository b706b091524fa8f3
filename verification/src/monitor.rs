//! The long-press fail-safe monitor.
//!
//! An independent task polls both buttons' raw levels on a fixed tick.
//! Because the buttons' locks may be busy, each poll is bounded by a small
//! budget; a tick that cannot get a lock conservatively keeps the press
//! state it last knew instead of assuming a release. When both buttons have
//! been held continuously for [`ARM_HOLD_MS`] the monitor announces an armed
//! warning; at [`RESET_HOLD_MS`] it locks the watchdog forever, so the
//! device is guaranteed to hard-reset.

use vstd::prelude::*;

use crate::signal::Level;
use crate::watchdog::Watchdog;

verus! {

/// Period of the monitor's polling tick.
pub const MONITOR_TICK_MS: u64 = 50;

/// How long one tick may wait for a button lock before giving up.
pub const LOCK_TRY_BUDGET_MS: u64 = 10;

/// Both buttons held this long: warn that the reset countdown is armed.
pub const ARM_HOLD_MS: u64 = 1000;

/// Both buttons held this long: starve the watchdog and reset.
pub const RESET_HOLD_MS: u64 = 3000;

/// What one tick learned about one button.
#[derive(PartialEq, Eq, Structural, Clone, Copy, Debug)]
pub enum ButtonProbe {
    /// The lock was acquired within budget and the raw level read. An empty
    /// button cell reads as `High` (not pressed).
    Observed(Level),
    /// The lock stayed busy past the budget; nothing was learned.
    LockBusy,
}

/// What one tick concluded.
#[derive(PartialEq, Eq, Structural, Clone, Copy, Debug)]
pub enum MonitorVerdict {
    /// Nothing to report.
    Observing,
    /// Both buttons crossed [`ARM_HOLD_MS`] this tick: countdown armed.
    ArmedWarning,
    /// Both buttons crossed [`RESET_HOLD_MS`]: the watchdog is now locked
    /// forever and the device will reset.
    ResetTriggered,
}

/// Per-button press tracking of the monitor task. All instants are
/// milliseconds since boot.
pub struct LongPressMonitor {
    /// Instant a continuous press of button 1 began, if one is in progress.
    pub b1_pressed_since: Option<u64>,
    /// Instant a continuous press of button 2 began, if one is in progress.
    pub b2_pressed_since: Option<u64>,
    /// Whether the armed warning has been issued for the presses in
    /// progress; cleared as soon as either button is seen released.
    pub reset_countdown_active: bool,
}

/// Whether a probe means "pressed", given the press state known before the
/// tick: an acquired lock reports the line directly, a busy lock keeps the
/// previous answer.
pub open spec fn probe_pressed(probe: ButtonProbe, prev_since: Option<u64>) -> bool {
    match probe {
        ButtonProbe::Observed(level) => level == Level::Low,
        ButtonProbe::LockBusy => prev_since.is_some(),
    }
}

/// The press-start instant after a tick at `now_ms`: a press keeps its
/// original start (or starts now), a release forgets it.
pub open spec fn next_pressed_since(
    probe: ButtonProbe,
    prev_since: Option<u64>,
    now_ms: u64,
) -> Option<u64> {
    if probe_pressed(probe, prev_since) {
        if prev_since.is_some() {
            prev_since
        } else {
            Some(now_ms)
        }
    } else {
        None
    }
}

/// Whether the tick at `now_ms` finds both buttons held for the reset
/// threshold, judged on the press-start instants as the tick leaves them.
pub open spec fn spec_reset_trigger(
    m: LongPressMonitor,
    p1: ButtonProbe,
    p2: ButtonProbe,
    now_ms: u64,
) -> bool {
    let s1 = next_pressed_since(p1, m.b1_pressed_since, now_ms);
    let s2 = next_pressed_since(p2, m.b2_pressed_since, now_ms);
    &&& s1.is_some() && now_ms - s1.unwrap() >= RESET_HOLD_MS
    &&& s2.is_some() && now_ms - s2.unwrap() >= RESET_HOLD_MS
}

/// Whether the tick at `now_ms` newly arms the countdown: both buttons held
/// for the warning threshold and the warning not yet given.
pub open spec fn spec_newly_armed(
    m: LongPressMonitor,
    p1: ButtonProbe,
    p2: ButtonProbe,
    now_ms: u64,
) -> bool {
    let s1 = next_pressed_since(p1, m.b1_pressed_since, now_ms);
    let s2 = next_pressed_since(p2, m.b2_pressed_since, now_ms);
    &&& !m.reset_countdown_active
    &&& s1.is_some() && now_ms - s1.unwrap() >= ARM_HOLD_MS
    &&& s2.is_some() && now_ms - s2.unwrap() >= ARM_HOLD_MS
}

impl LongPressMonitor {
    /// Press starts never lie in the future, and the armed flag implies
    /// both buttons are being tracked as pressed.
    pub open spec fn wf(&self, now_ms: u64) -> bool {
        &&& self.b1_pressed_since.is_some() ==> self.b1_pressed_since.unwrap() <= now_ms
        &&& self.b2_pressed_since.is_some() ==> self.b2_pressed_since.unwrap() <= now_ms
        &&& self.reset_countdown_active ==> self.b1_pressed_since.is_some()
            && self.b2_pressed_since.is_some()
    }

    /// A monitor that has seen nothing pressed.
    pub fn new() -> (m: LongPressMonitor)
        ensures
            m.b1_pressed_since.is_none(),
            m.b2_pressed_since.is_none(),
            !m.reset_countdown_active,
            forall|t: u64| m.wf(t),
    {
        LongPressMonitor {
            b1_pressed_since: None,
            b2_pressed_since: None,
            reset_countdown_active: false,
        }
    }
}

/// One tick of the long-press monitor task at `now_ms`.
///
/// A busy lock never changes what the monitor believes about a button: the
/// previously known press state is kept, so contention alone can neither
/// start nor cancel the countdown. When both buttons have been held past
/// [`RESET_HOLD_MS`] the watchdog is locked forever; otherwise the watchdog
/// is untouched.
pub fn monitor_double_longpress(
    m: &mut LongPressMonitor,
    p1: ButtonProbe,
    p2: ButtonProbe,
    now_ms: u64,
    wd: &mut Watchdog,
) -> (verdict: MonitorVerdict)
    requires
        old(m).wf(now_ms),
    ensures
        final(m).wf(now_ms),
        final(m).b1_pressed_since == next_pressed_since(p1, old(m).b1_pressed_since, now_ms),
        final(m).b2_pressed_since == next_pressed_since(p2, old(m).b2_pressed_since, now_ms),
        p1 == ButtonProbe::LockBusy ==> final(m).b1_pressed_since == old(m).b1_pressed_since,
        p2 == ButtonProbe::LockBusy ==> final(m).b2_pressed_since == old(m).b2_pressed_since,
        final(m).reset_countdown_active == (probe_pressed(p1, old(m).b1_pressed_since)
            && probe_pressed(p2, old(m).b2_pressed_since) && (old(m).reset_countdown_active
            || spec_newly_armed(*old(m), p1, p2, now_ms))),
        (verdict == MonitorVerdict::ResetTriggered) == spec_reset_trigger(*old(m), p1, p2, now_ms),
        (verdict == MonitorVerdict::ArmedWarning) == (!spec_reset_trigger(*old(m), p1, p2, now_ms)
            && spec_newly_armed(*old(m), p1, p2, now_ms)),
        spec_reset_trigger(*old(m), p1, p2, now_ms) ==> final(wd).locked_forever
            && final(wd).started == old(wd).started
            && final(wd).starve_interval_ms == old(wd).starve_interval_ms
            && final(wd).last_fed_ms == old(wd).last_fed_ms,
        !spec_reset_trigger(*old(m), p1, p2, now_ms) ==> *final(wd) == *old(wd),
{
    let b1_pressed: bool = match p1 {
        ButtonProbe::Observed(level) => level == Level::Low,
        ButtonProbe::LockBusy => m.b1_pressed_since.is_some(),
    };
    let b2_pressed: bool = match p2 {
        ButtonProbe::Observed(level) => level == Level::Low,
        ButtonProbe::LockBusy => m.b2_pressed_since.is_some(),
    };

    if b1_pressed && m.b1_pressed_since.is_none() {
        m.b1_pressed_since = Some(now_ms);
    }
    if b2_pressed && m.b2_pressed_since.is_none() {
        m.b2_pressed_since = Some(now_ms);
    }
    if !b1_pressed && m.b1_pressed_since.is_some() {
        m.b1_pressed_since = None;
        m.reset_countdown_active = false;
    }
    if !b2_pressed && m.b2_pressed_since.is_some() {
        m.b2_pressed_since = None;
        m.reset_countdown_active = false;
    }

    let mut verdict: MonitorVerdict = MonitorVerdict::Observing;
    match (m.b1_pressed_since, m.b2_pressed_since) {
        (Some(t1), Some(t2)) => {
            let d1: u64 = now_ms - t1;
            let d2: u64 = now_ms - t2;
            if !m.reset_countdown_active && d1 >= ARM_HOLD_MS && d2 >= ARM_HOLD_MS {
                m.reset_countdown_active = true;
                verdict = MonitorVerdict::ArmedWarning;
            }
            if d1 >= RESET_HOLD_MS && d2 >= RESET_HOLD_MS {
                wd.lock_forever();
                verdict = MonitorVerdict::ResetTriggered;
            }
        },
        _ => {},
    }
    verdict
}

} // verus!
