//! The shared game state machine.
//!
//! Exactly one authoritative [`Game`] exists while the device is powered; it
//! lives in a lock-protected cell that every task reaches through the
//! accessor functions at the bottom of this module. The accessors take the
//! cell's content (`&mut Option<Game>`), since the locking itself is the
//! driver's business. All instants are milliseconds since boot.

use vstd::prelude::*;

use crate::watchdog::Watchdog;

verus! {

/// The four phases of the machine. The round engine drives the cycle
/// Waiting -> Playing -> ComputingResults -> Finished -> Waiting, though no
/// transition is ruled out at the type level.
#[derive(PartialEq, Eq, Structural, Clone, Copy, Debug)]
pub enum GameState {
    Waiting,
    Playing,
    ComputingResults,
    Finished,
}

/// Elapsed time from `start_ms` to `now_ms`, clamped to zero when the clock
/// reads earlier than the recorded start.
pub open spec fn duration_since(now_ms: u64, start_ms: u64) -> u64 {
    if now_ms >= start_ms {
        (now_ms - start_ms) as u64
    } else {
        0
    }
}

/// The game singleton: the current state, the instant that state began, and
/// a lazily recomputed duration spent in it so far.
pub struct Game {
    pub state: GameState,
    /// Instant the current state began.
    pub state_start: u64,
    /// Time spent in the current state as of the last update.
    pub state_duration: u64,
}

/// What [`Game::update_state_duration`] leaves behind: only the cached
/// duration moves.
pub open spec fn spec_update_duration(g: Game, now_ms: u64) -> Game {
    Game { state_duration: duration_since(now_ms, g.state_start), ..g }
}

/// What [`Game::transition`] leaves behind. A transition to the current
/// state is a no-op that keeps the state and its start instant and only
/// refreshes the cached duration; a real transition enters the new state at
/// `now_ms`, after charging the outgoing state with the time it ran.
pub open spec fn spec_transition(g: Game, next_state: GameState, now_ms: u64) -> Game {
    if next_state == g.state {
        spec_update_duration(g, now_ms)
    } else {
        Game {
            state: next_state,
            state_start: now_ms,
            state_duration: duration_since(now_ms, g.state_start),
        }
    }
}

impl Game {
    /// A fresh game, in `Waiting` since `now_ms`.
    pub fn new(now_ms: u64) -> (g: Game)
        ensures
            g.state == GameState::Waiting,
            g.state_start == now_ms,
            g.state_duration == 0,
    {
        Game { state: GameState::Waiting, state_start: now_ms, state_duration: 0 }
    }

    /// Recomputes the time spent in the current state.
    pub fn update_state_duration(&mut self, now_ms: u64)
        ensures
            *final(self) == spec_update_duration(*old(self), now_ms),
    {
        self.state_duration = if now_ms >= self.state_start {
            now_ms - self.state_start
        } else {
            0
        };
    }

    /// Moves the machine to `next_state`. Transitioning to the state the
    /// machine is already in is an idempotent no-op: the state is unchanged
    /// and `state_start` is not reset.
    pub fn transition(&mut self, next_state: GameState, now_ms: u64)
        ensures
            *final(self) == spec_transition(*old(self), next_state, now_ms),
            next_state == old(self).state ==> final(self).state == old(self).state
                && final(self).state_start == old(self).state_start,
            next_state != old(self).state ==> final(self).state == next_state
                && final(self).state_start == now_ms,
            final(self).state_duration == duration_since(now_ms, old(self).state_start),
    {
        if next_state == self.state {
            self.update_state_duration(now_ms);
            return;
        }
        self.update_state_duration(now_ms);
        self.state = next_state;
        self.state_start = now_ms;
    }
}

/// Constructs the singleton in its cell, in `Waiting` as of `now_ms`.
pub fn initialize_game(slot: &mut Option<Game>, now_ms: u64)
    ensures
        final(slot).is_some(),
        final(slot).unwrap() == (Game {
            state: GameState::Waiting,
            state_start: now_ms,
            state_duration: 0,
        }),
{
    *slot = Some(Game::new(now_ms));
}

/// Transitions the singleton. An unconstructed singleton is left as it is
/// (the caller's next read goes through the fail-safe accessor below).
pub fn transition_game_state(slot: &mut Option<Game>, next_state: GameState, now_ms: u64)
    ensures
        old(slot).is_none() ==> final(slot).is_none(),
        old(slot).is_some() ==> final(slot).is_some()
            && final(slot).unwrap() == spec_transition(old(slot).unwrap(), next_state, now_ms),
{
    match slot {
        Some(game) => game.transition(next_state, now_ms),
        None => (),
    }
}

/// Refreshes the singleton's cached state duration.
pub fn update_current_game_state_duration(slot: &mut Option<Game>, now_ms: u64)
    ensures
        old(slot).is_none() ==> final(slot).is_none(),
        old(slot).is_some() ==> final(slot).is_some()
            && final(slot).unwrap() == spec_update_duration(old(slot).unwrap(), now_ms),
{
    match slot {
        Some(game) => game.update_state_duration(now_ms),
        None => (),
    }
}

/// Reads the singleton's state, if it is constructed.
pub fn get_current_game_state(slot: &Option<Game>) -> (r: Option<GameState>)
    ensures
        r.is_some() == slot.is_some(),
        slot.is_some() ==> r.unwrap() == slot.unwrap().state,
{
    match slot {
        Some(game) => Some(game.state),
        None => None,
    }
}

/// Reads the singleton's state. Finding the singleton unconstructed after
/// boot is a safety fault: rather than guess a state, the accessor arms the
/// watchdog fail-safe — the watchdog starves and the device resets — and
/// reports that no state is available.
pub fn get_current_game_state_or_reset(slot: &Option<Game>, wd: &mut Watchdog) -> (r: Option<
    GameState,
>)
    ensures
        slot.is_some() ==> r == Some(slot.unwrap().state) && *final(wd) == *old(wd),
        slot.is_none() ==> r.is_none() && final(wd).locked_forever
            && final(wd).started == old(wd).started
            && final(wd).starve_interval_ms == old(wd).starve_interval_ms
            && final(wd).last_fed_ms == old(wd).last_fed_ms,
{
    match slot {
        Some(game) => Some(game.state),
        None => {
            wd.lock_forever();
            None
        },
    }
}

} // verus!
