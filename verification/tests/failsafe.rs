use button_wars::monitor::{
    monitor_double_longpress, ButtonProbe, LongPressMonitor, MonitorVerdict, MONITOR_TICK_MS,
};
use button_wars::signal::Level;
use button_wars::watchdog::{feed_watchdog, Watchdog};

const PRESSED: ButtonProbe = ButtonProbe::Observed(Level::Low);
const RELEASED: ButtonProbe = ButtonProbe::Observed(Level::High);

#[test]
fn watchdog_countdown_restarts_on_feed() {
    let mut wd = Watchdog::new();
    assert!(!wd.starved(1_000_000));
    wd.start(3000, 0);
    assert!(!wd.starved(2999));
    assert!(wd.starved(3000));
    assert!(wd.feed(500));
    assert_eq!(wd.last_fed_ms, 500);
    assert!(!wd.starved(3499));
    assert!(wd.starved(3500));
}

#[test]
fn locked_watchdog_refuses_every_feed() {
    let mut wd = Watchdog::new();
    wd.start(3000, 0);
    assert!(wd.feed(100));
    wd.lock_forever();
    assert!(!wd.feed(200));
    assert_eq!(wd.last_fed_ms, 100);
    assert!(wd.starved(3100));
}

#[test]
fn feeder_skips_an_empty_cell() {
    let mut slot: Option<Watchdog> = None;
    assert!(!feed_watchdog(&mut slot, 10));

    let mut wd = Watchdog::new();
    wd.start(3000, 0);
    let mut slot = Some(wd);
    assert!(feed_watchdog(&mut slot, 10));
    assert_eq!(slot.as_ref().unwrap().last_fed_ms, 10);

    slot.as_mut().unwrap().lock_forever();
    assert!(!feed_watchdog(&mut slot, 20));
    assert_eq!(slot.as_ref().unwrap().last_fed_ms, 10);
}

#[test]
fn lock_contention_never_flips_a_known_press_state() {
    // the monitor fails to acquire the button locks for 4 consecutive
    // 50 ms ticks: it keeps reporting the press state it last knew
    let mut m = LongPressMonitor::new();
    let mut wd = Watchdog::new();

    let v = monitor_double_longpress(&mut m, PRESSED, RELEASED, 0, &mut wd);
    assert_eq!(v, MonitorVerdict::Observing);
    assert_eq!(m.b1_pressed_since, Some(0));
    assert_eq!(m.b2_pressed_since, None);

    for tick in 1..=4u64 {
        let now = tick * MONITOR_TICK_MS;
        let v = monitor_double_longpress(
            &mut m,
            ButtonProbe::LockBusy,
            ButtonProbe::LockBusy,
            now,
            &mut wd,
        );
        assert_eq!(v, MonitorVerdict::Observing);
        // button 1 still counts as pressed since instant 0, button 2 as
        // released: neither flipped for want of the lock
        assert_eq!(m.b1_pressed_since, Some(0));
        assert_eq!(m.b2_pressed_since, None);
    }
    assert!(!wd.locked_forever);
}

#[test]
fn double_longpress_arms_then_resets() {
    // both buttons held continuously: armed warning at one second, reset
    // at three; the feeder then starves and the device goes down
    let mut m = LongPressMonitor::new();
    let mut wd = Watchdog::new();
    wd.start(3000, 0);

    let mut now: u64 = 0;
    let mut armed_at: Option<u64> = None;
    let mut reset_at: Option<u64> = None;
    while now <= 3100 {
        if now % 500 == 0 {
            // the feeder task runs on its own period; it succeeds for as
            // long as the fail-safe has not been armed
            assert!(wd.feed(now));
        }
        let v = monitor_double_longpress(&mut m, PRESSED, PRESSED, now, &mut wd);
        match v {
            MonitorVerdict::ArmedWarning => armed_at = armed_at.or(Some(now)),
            MonitorVerdict::ResetTriggered => {
                reset_at = reset_at.or(Some(now));
                break;
            }
            MonitorVerdict::Observing => {}
        }
        now += MONITOR_TICK_MS;
    }
    assert_eq!(armed_at, Some(1000));
    assert_eq!(reset_at, Some(3000));
    assert!(wd.locked_forever);

    // the feeder's attempts now do nothing, and the starve window elapses
    assert!(!wd.feed(3200));
    assert!(!wd.feed(3700));
    assert!(wd.starved(wd.last_fed_ms + 3000));
}

#[test]
fn releasing_one_button_cancels_the_countdown() {
    let mut m = LongPressMonitor::new();
    let mut wd = Watchdog::new();

    assert_eq!(
        monitor_double_longpress(&mut m, PRESSED, PRESSED, 0, &mut wd),
        MonitorVerdict::Observing
    );
    assert_eq!(
        monitor_double_longpress(&mut m, PRESSED, PRESSED, 1000, &mut wd),
        MonitorVerdict::ArmedWarning
    );
    assert!(m.reset_countdown_active);

    // button 1 released before the reset threshold
    assert_eq!(
        monitor_double_longpress(&mut m, RELEASED, PRESSED, 1500, &mut wd),
        MonitorVerdict::Observing
    );
    assert!(!m.reset_countdown_active);
    assert_eq!(m.b1_pressed_since, None);

    // pressing again restarts button 1's countdown from now
    assert_eq!(
        monitor_double_longpress(&mut m, PRESSED, PRESSED, 1600, &mut wd),
        MonitorVerdict::Observing
    );
    assert_eq!(m.b1_pressed_since, Some(1600));

    // at 4000 button 2 alone has been held past the threshold: no reset,
    // but the pair has crossed the warning threshold again
    assert_eq!(
        monitor_double_longpress(&mut m, PRESSED, PRESSED, 4000, &mut wd),
        MonitorVerdict::ArmedWarning
    );
    assert!(!wd.locked_forever);
}
