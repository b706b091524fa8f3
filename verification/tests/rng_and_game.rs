use button_wars::common::SimpleRngU64;
use button_wars::game::{
    get_current_game_state, get_current_game_state_or_reset, initialize_game,
    transition_game_state, update_current_game_state_duration, Game, GameState,
};
use button_wars::round::go_signal_delay;
use button_wars::watchdog::Watchdog;

#[test]
fn next_u64_follows_the_lcg_formula() {
    let mut rng = SimpleRngU64::new(1);
    assert_eq!(rng.next_u64(), 1015568748);
    assert_eq!(rng.next_u64(), 1690440584168923);
    assert_eq!(rng.next_u64(), 9875514160938615166);
}

#[test]
fn new_stores_the_seed() {
    let rng = SimpleRngU64::new(777);
    assert_eq!(rng.seed, 777);
}

#[test]
fn generate_from_range_stays_in_range() {
    let mut rng = SimpleRngU64::new(42);
    assert_eq!(rng.generate_from_range(2000, 5000), 2122);

    let mut rng = SimpleRngU64::new(12345);
    assert_eq!(rng.generate_from_range(0, 10), 6);
}

#[test]
fn generate_from_range_degenerate_returns_from() {
    let mut rng = SimpleRngU64::new(42);
    assert_eq!(rng.generate_from_range(7, 7), 7);
    assert_eq!(rng.generate_from_range(9, 3), 9);
    // the degenerate calls consumed nothing from the stream
    assert_eq!(rng.next_u64(), 1083814273);
}

#[test]
fn go_signal_delay_is_in_the_advertised_window() {
    let mut rng = SimpleRngU64::new(42);
    let d = go_signal_delay(&mut rng);
    assert_eq!(d, 2122);
    for _ in 0..100 {
        let d = go_signal_delay(&mut rng);
        assert!((2000..=5000).contains(&d));
    }
}

#[test]
fn transition_enters_the_new_state_at_now() {
    let mut g = Game::new(100);
    assert_eq!(g.state, GameState::Waiting);
    assert_eq!(g.state_start, 100);
    assert_eq!(g.state_duration, 0);

    g.transition(GameState::Playing, 250);
    assert_eq!(g.state, GameState::Playing);
    assert_eq!(g.state_start, 250);
    assert_eq!(g.state_duration, 150);
}

#[test]
fn transition_to_current_state_is_idempotent() {
    let mut g = Game::new(100);
    g.transition(GameState::Playing, 250);
    // same target again: the state is kept and state_start is not reset,
    // only the cached duration is refreshed
    g.transition(GameState::Playing, 400);
    assert_eq!(g.state, GameState::Playing);
    assert_eq!(g.state_start, 250);
    assert_eq!(g.state_duration, 150);

    g.transition(GameState::ComputingResults, 500);
    assert_eq!(g.state_start, 500);
}

#[test]
fn update_state_duration_clamps_a_backwards_clock() {
    let mut g = Game::new(300);
    g.update_state_duration(200);
    assert_eq!(g.state_duration, 0);
    g.update_state_duration(450);
    assert_eq!(g.state_duration, 150);
}

#[test]
fn singleton_accessors_work_through_the_cell() {
    let mut slot: Option<Game> = None;

    // before initialization: transition and update are no-ops
    transition_game_state(&mut slot, GameState::Playing, 10);
    assert!(slot.is_none());
    update_current_game_state_duration(&mut slot, 10);
    assert!(slot.is_none());
    assert_eq!(get_current_game_state(&slot), None);

    initialize_game(&mut slot, 50);
    assert_eq!(get_current_game_state(&slot), Some(GameState::Waiting));

    transition_game_state(&mut slot, GameState::Playing, 80);
    assert_eq!(get_current_game_state(&slot), Some(GameState::Playing));
    update_current_game_state_duration(&mut slot, 100);
    let g = slot.as_ref().unwrap();
    assert_eq!(g.state_start, 80);
    assert_eq!(g.state_duration, 20);
}

#[test]
fn missing_singleton_arms_the_fail_safe() {
    let slot: Option<Game> = None;
    let mut wd = Watchdog::new();
    wd.start(3000, 0);

    let r = get_current_game_state_or_reset(&slot, &mut wd);
    assert_eq!(r, None);
    assert!(wd.locked_forever);
    // the feeder can never feed again; the starve window then runs out
    assert!(!wd.feed(500));
    assert!(wd.starved(3000));
}

#[test]
fn present_singleton_leaves_the_watchdog_alone() {
    let mut slot: Option<Game> = None;
    initialize_game(&mut slot, 0);
    let mut wd = Watchdog::new();
    wd.start(3000, 0);

    let r = get_current_game_state_or_reset(&slot, &mut wd);
    assert_eq!(r, Some(GameState::Waiting));
    assert!(!wd.locked_forever);
    assert!(wd.feed(500));
}
