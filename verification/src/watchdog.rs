//! Model of the hardware watchdog and of the fail-safe discipline built on
//! it.
//!
//! The device resets when the watchdog goes unfed for its whole starve
//! interval. Ordinarily a background task feeds it on a fixed period; the
//! deliberate way to force a reset is to lock the watchdog forever, so that
//! every later feed attempt is refused and the countdown runs out. The
//! permanent lock is modelled as a flag consulted before each feed rather
//! than as a held mutex, which keeps the starvation argument explicit.

use vstd::prelude::*;

verus! {

/// The watchdog handle: a countdown that must be fed at least once per
/// starve interval, plus the fail-safe flag that starves it on purpose.
/// All instants are milliseconds since boot.
pub struct Watchdog {
    /// Whether the countdown is running.
    pub started: bool,
    /// Length of the countdown: going this long without a feed resets the
    /// device.
    pub starve_interval_ms: u64,
    /// Instant of the last feed (or of `start`, which arms the countdown).
    pub last_fed_ms: u64,
    /// Once set, no feed ever succeeds again and the device is guaranteed
    /// to reset when the countdown runs out. Never cleared.
    pub locked_forever: bool,
}

impl Watchdog {
    /// A watchdog that has not been started yet.
    pub fn new() -> (wd: Watchdog)
        ensures
            !wd.started,
            !wd.locked_forever,
            wd.starve_interval_ms == 0,
            wd.last_fed_ms == 0,
    {
        Watchdog { started: false, starve_interval_ms: 0, last_fed_ms: 0, locked_forever: false }
    }

    /// Starts the countdown with the given starve interval.
    pub fn start(&mut self, starve_interval_ms: u64, now_ms: u64)
        requires
            starve_interval_ms > 0,
        ensures
            final(self).started,
            final(self).starve_interval_ms == starve_interval_ms,
            final(self).last_fed_ms == now_ms,
            final(self).locked_forever == old(self).locked_forever,
    {
        self.started = true;
        self.starve_interval_ms = starve_interval_ms;
        self.last_fed_ms = now_ms;
    }

    /// One feed attempt. Succeeds, restarting the countdown, unless the
    /// fail-safe lock is held; a locked watchdog is left exactly as it was.
    pub fn feed(&mut self, now_ms: u64) -> (fed: bool)
        ensures
            fed == !old(self).locked_forever,
            final(self).started == old(self).started,
            final(self).starve_interval_ms == old(self).starve_interval_ms,
            final(self).locked_forever == old(self).locked_forever,
            fed ==> final(self).last_fed_ms == now_ms,
            !fed ==> final(self).last_fed_ms == old(self).last_fed_ms,
    {
        if self.locked_forever {
            false
        } else {
            self.last_fed_ms = now_ms;
            true
        }
    }

    /// Arms the fail-safe: from here on the watchdog starves and the device
    /// resets once the countdown runs out.
    pub fn lock_forever(&mut self)
        ensures
            final(self).locked_forever,
            final(self).started == old(self).started,
            final(self).starve_interval_ms == old(self).starve_interval_ms,
            final(self).last_fed_ms == old(self).last_fed_ms,
    {
        self.locked_forever = true;
    }

    /// Whether a running countdown has gone unfed for its whole starve
    /// interval by `now_ms` — the point at which the hardware resets.
    pub fn starved(&self, now_ms: u64) -> (r: bool)
        requires
            now_ms >= self.last_fed_ms,
        ensures
            r == (self.started && now_ms - self.last_fed_ms >= self.starve_interval_ms),
    {
        self.started && now_ms - self.last_fed_ms >= self.starve_interval_ms
    }
}

/// One iteration of the feeder task: take the watchdog from its shared cell
/// and feed it. An empty cell, or one whose watchdog is locked forever, is
/// left untouched.
pub fn feed_watchdog(slot: &mut Option<Watchdog>, now_ms: u64) -> (fed: bool)
    ensures
        old(slot).is_none() ==> final(slot).is_none() && !fed,
        old(slot).is_some() ==> final(slot).is_some() && fed == !old(slot).unwrap().locked_forever,
        old(slot).is_some() && fed ==> final(slot).unwrap() == (Watchdog {
            last_fed_ms: now_ms,
            ..old(slot).unwrap()
        }),
        old(slot).is_some() && !fed ==> final(slot).unwrap() == old(slot).unwrap(),
{
    match slot {
        Some(wd) => wd.feed(now_ms),
        None => false,
    }
}

} // verus!
