//! The round engine: scores, the per-round record, match completion, and
//! the result statistics computed when a match ends.
//!
//! A match is a fixed number of rounds; each round is won by whichever
//! player completes a validated press-and-release first after the "go"
//! signal. The match ends the instant either player's score reaches the win
//! threshold, even if rounds remain.

use vstd::prelude::*;

use crate::button::{spec_full_press_release, spec_wait_for_level, Button, ButtonRole};
use crate::common::{lcg_next, SimpleRngU64};
use crate::signal::{Level, RawSignal, MAX_INSTANT_MS};

verus! {

/// Rounds in a match.
pub const TOTAL_ROUNDS: usize = 5;

/// Score that decides a match: the best-of majority of [`TOTAL_ROUNDS`].
pub const WIN_THRESHOLD: usize = (TOTAL_ROUNDS + 1) / 2;

/// Shortest randomized delay between "get ready" and "go".
pub const GO_DELAY_MIN_MS: u64 = 2000;

/// Longest randomized delay between "get ready" and "go".
pub const GO_DELAY_MAX_MS: u64 = 5000;

/// Pause between rounds, during which the long-press reset gesture has a
/// guaranteed window.
pub const INTER_ROUND_DELAY_MS: u64 = 2000;

/// The player a role does not name.
pub open spec fn other_role(role: ButtonRole) -> ButtonRole {
    match role {
        ButtonRole::Player1 => ButtonRole::Player2,
        ButtonRole::Player2 => ButtonRole::Player1,
    }
}

/// Win counts of the two players. Both keys always exist.
pub struct ScoreBoard {
    pub player1_wins: usize,
    pub player2_wins: usize,
}

impl ScoreBoard {
    /// The win count of `role`.
    pub open spec fn spec_get(&self, role: ButtonRole) -> usize {
        match role {
            ButtonRole::Player1 => self.player1_wins,
            ButtonRole::Player2 => self.player2_wins,
        }
    }

    /// A board with both counts at zero.
    pub fn new() -> (s: ScoreBoard)
        ensures
            s.player1_wins == 0,
            s.player2_wins == 0,
    {
        ScoreBoard { player1_wins: 0, player2_wins: 0 }
    }

    pub fn get(&self, role: ButtonRole) -> (r: usize)
        ensures
            r == self.spec_get(role),
    {
        match role {
            ButtonRole::Player1 => self.player1_wins,
            ButtonRole::Player2 => self.player2_wins,
        }
    }

    /// Adds one win for `role`.
    pub fn increment(&mut self, role: ButtonRole)
        requires
            old(self).spec_get(role) < usize::MAX,
        ensures
            final(self).spec_get(role) == old(self).spec_get(role) + 1,
            final(self).spec_get(other_role(role)) == old(self).spec_get(other_role(role)),
    {
        match role {
            ButtonRole::Player1 => self.player1_wins = self.player1_wins + 1,
            ButtonRole::Player2 => self.player2_wins = self.player2_wins + 1,
        }
    }

    /// Sets both counts back to zero.
    pub fn reset(&mut self)
        ensures
            final(self).player1_wins == 0,
            final(self).player2_wins == 0,
    {
        self.player1_wins = 0;
        self.player2_wins = 0;
    }
}

/// One slot of the per-match record: the round's winner and the winning
/// response time. An unplayed round reads `(None, 0)`.
#[derive(Clone, Copy, Debug)]
pub struct RoundEntry {
    pub winner: Option<ButtonRole>,
    pub response_ms: u64,
}

/// The per-match record: one entry per round, written once per round in
/// round order.
pub struct RoundRecord {
    pub entries: Vec<RoundEntry>,
}

impl RoundRecord {
    /// The record always holds exactly [`TOTAL_ROUNDS`] entries.
    pub open spec fn wf(&self) -> bool {
        self.entries@.len() == TOTAL_ROUNDS
    }

    /// Every entry reads `(None, 0)`.
    pub open spec fn cleared(&self) -> bool {
        forall|i: int|
            0 <= i < self.entries@.len() ==> (#[trigger] self.entries@[i]).winner.is_none()
                && self.entries@[i].response_ms == 0
    }

    /// A record of [`TOTAL_ROUNDS`] unplayed rounds.
    pub fn new() -> (r: RoundRecord)
        ensures
            r.wf(),
            r.cleared(),
    {
        let mut entries: Vec<RoundEntry> = Vec::new();
        let mut i: usize = 0;
        while i < TOTAL_ROUNDS
            invariant
                i <= TOTAL_ROUNDS,
                entries@.len() == i,
                forall|k: int|
                    0 <= k < entries@.len() ==> (#[trigger] entries@[k]).winner.is_none()
                        && entries@[k].response_ms == 0,
            decreases TOTAL_ROUNDS - i,
        {
            entries.push(RoundEntry { winner: None, response_ms: 0 });
            i = i + 1;
        }
        RoundRecord { entries }
    }

    /// Clears every entry back to `(None, 0)`.
    pub fn clear(&mut self)
        ensures
            final(self).wf(),
            final(self).cleared(),
    {
        *self = RoundRecord::new();
    }

    /// Writes round `i`'s result.
    pub fn set(&mut self, i: usize, winner: ButtonRole, response_ms: u64)
        requires
            old(self).wf(),
            i < TOTAL_ROUNDS,
        ensures
            final(self).wf(),
            final(self).entries@ == old(self).entries@.update(
                i as int,
                (RoundEntry { winner: Some(winner), response_ms }),
            ),
    {
        self.entries[i] = RoundEntry { winner: Some(winner), response_ms };
    }

    /// The winner recorded for round `i`.
    pub fn winner_of(&self, i: usize) -> (r: Option<ButtonRole>)
        requires
            self.wf(),
            i < TOTAL_ROUNDS,
        ensures
            r == self.entries@[i as int].winner,
    {
        self.entries[i].winner
    }

    /// The response time recorded for round `i`.
    pub fn response_of(&self, i: usize) -> (r: u64)
        requires
            self.wf(),
            i < TOTAL_ROUNDS,
        ensures
            r == self.entries@[i as int].response_ms,
    {
        self.entries[i].response_ms
    }
}

/// How many of `entries` were won by `role`.
pub open spec fn count_wins(entries: Seq<RoundEntry>, role: ButtonRole) -> nat
    decreases entries.len(),
{
    if entries.len() == 0 {
        0
    } else {
        count_wins(entries.drop_last(), role) + if entries.last().winner == Some(role) {
            1nat
        } else {
            0nat
        }
    }
}

/// The round engine's whole per-match state: both scores, the record, and
/// how many rounds have been recorded.
pub struct RoundEngine {
    pub scores: ScoreBoard,
    pub record: RoundRecord,
    pub rounds_played: usize,
}

impl RoundEngine {
    /// The scores agree with the record: each player's count is exactly the
    /// number of recorded rounds they won, played rounds are recorded with
    /// a winner and an in-range time, and unplayed rounds read `(None, 0)`.
    pub open spec fn wf(&self) -> bool {
        &&& self.record.wf()
        &&& self.rounds_played <= TOTAL_ROUNDS
        &&& self.scores.player1_wins == count_wins(
            self.record.entries@.take(self.rounds_played as int),
            ButtonRole::Player1,
        )
        &&& self.scores.player2_wins == count_wins(
            self.record.entries@.take(self.rounds_played as int),
            ButtonRole::Player2,
        )
        &&& forall|i: int|
            0 <= i < self.rounds_played ==> (#[trigger] self.record.entries@[i]).winner.is_some()
                && self.record.entries@[i].response_ms <= MAX_INSTANT_MS
        &&& forall|i: int|
            self.rounds_played <= i < TOTAL_ROUNDS ==> (
            #[trigger] self.record.entries@[i]).winner.is_none()
                && self.record.entries@[i].response_ms == 0
    }

    /// Neither player has reached the win threshold: the match is still
    /// being played.
    pub open spec fn live(&self) -> bool {
        self.scores.player1_wins < WIN_THRESHOLD && self.scores.player2_wins < WIN_THRESHOLD
    }

    /// A fresh engine: zero scores, empty record, no rounds played.
    pub fn new() -> (e: RoundEngine)
        ensures
            e.wf(),
            e.live(),
            e.rounds_played == 0,
            e.scores.player1_wins == 0,
            e.scores.player2_wins == 0,
            e.record.cleared(),
    {
        let e = RoundEngine { scores: ScoreBoard::new(), record: RoundRecord::new(), rounds_played: 0 };
        proof {
            assert(e.record.entries@.take(0) =~= Seq::<RoundEntry>::empty());
        }
        e
    }

    /// On every entry to `Waiting`: both scores back to zero and the whole
    /// record back to `(None, 0)`, before a new start gesture is accepted.
    pub fn reset_for_waiting(&mut self)
        ensures
            final(self).wf(),
            final(self).live(),
            final(self).rounds_played == 0,
            final(self).scores.player1_wins == 0,
            final(self).scores.player2_wins == 0,
            final(self).record.wf(),
            final(self).record.cleared(),
    {
        self.scores.reset();
        self.record.clear();
        self.rounds_played = 0;
        proof {
            assert(self.record.entries@.take(0) =~= Seq::<RoundEntry>::empty());
        }
    }

    /// Records one finished round: the winner's score goes up by one, the
    /// round's slot is written, and the match is over exactly when the new
    /// score reaches [`WIN_THRESHOLD`] — never later.
    pub fn record_round_result(&mut self, winner: ButtonRole, response_ms: u64) -> (match_over:
        bool)
        requires
            old(self).wf(),
            old(self).live(),
            old(self).rounds_played < TOTAL_ROUNDS,
            response_ms <= MAX_INSTANT_MS,
        ensures
            final(self).wf(),
            final(self).rounds_played == old(self).rounds_played + 1,
            final(self).record.entries@ == old(self).record.entries@.update(
                old(self).rounds_played as int,
                (RoundEntry { winner: Some(winner), response_ms }),
            ),
            final(self).scores.spec_get(winner) == old(self).scores.spec_get(winner) + 1,
            final(self).scores.spec_get(other_role(winner)) == old(self).scores.spec_get(
                other_role(winner),
            ),
            match_over == (final(self).scores.spec_get(winner) == WIN_THRESHOLD),
            match_over == !final(self).live(),
    {
        let i: usize = self.rounds_played;
        self.record.set(i, winner, response_ms);
        self.scores.increment(winner);
        self.rounds_played = i + 1;
        proof {
            let oldseq = old(self).record.entries@;
            let newseq = self.record.entries@;
            assert(newseq.take(i + 1).drop_last() =~= oldseq.take(i as int));
            assert(newseq.take(i + 1).last() == (RoundEntry { winner: Some(winner), response_ms }));
            assert forall|k: int| 0 <= k < self.rounds_played implies (
                #[trigger] self.record.entries@[k]).winner.is_some()
                && self.record.entries@[k].response_ms <= MAX_INSTANT_MS by {
                if k < i {
                    assert(self.record.entries@[k] == old(self).record.entries@[k]);
                }
            }
        }
        self.scores.get(winner) == WIN_THRESHOLD
    }

    /// The player with the higher score; an equal standing reads as
    /// Player 2, matching a scan of the board in key order that keeps the
    /// latest maximum.
    pub fn highest_scorer(&self) -> (r: ButtonRole)
        ensures
            r == (if self.scores.player2_wins >= self.scores.player1_wins {
                ButtonRole::Player2
            } else {
                ButtonRole::Player1
            }),
    {
        if self.scores.player2_wins >= self.scores.player1_wins {
            ButtonRole::Player2
        } else {
            ButtonRole::Player1
        }
    }
}

/// The randomized delay between "get ready" and "go", drawn uniformly from
/// `[GO_DELAY_MIN_MS, GO_DELAY_MAX_MS]`.
pub fn go_signal_delay(rng: &mut SimpleRngU64) -> (d: u64)
    ensures
        GO_DELAY_MIN_MS <= d <= GO_DELAY_MAX_MS,
        final(rng).seed == lcg_next(old(rng).seed),
        d == GO_DELAY_MIN_MS + lcg_next(old(rng).seed) as int % (GO_DELAY_MAX_MS - GO_DELAY_MIN_MS
            + 1),
{
    rng.generate_from_range(GO_DELAY_MIN_MS, GO_DELAY_MAX_MS)
}

/// The elapsed time from the "go" instant to a release, clamped to zero
/// when the release came first.
pub open spec fn spec_response_time(go_ms: u64, release_ms: u64) -> u64 {
    if release_ms >= go_ms {
        (release_ms - go_ms) as u64
    } else {
        0
    }
}

/// The winner's elapsed time from the "go" instant to the release that won
/// the round. A release validated before "go" — a false start that still
/// won the race — is deliberately clamped to a zero-millisecond response
/// rather than underflowing.
pub fn response_time_ms(go_ms: u64, release_ms: u64) -> (r: u64)
    ensures
        r == spec_response_time(go_ms, release_ms),
        release_ms >= go_ms ==> r == release_ms - go_ms,
        release_ms < go_ms ==> r == 0,
{
    if release_ms >= go_ms {
        release_ms - go_ms
    } else {
        0
    }
}

/// Which player's full press-and-release resolves first when both waits are
/// raced from the "go" instant, and that player's release instant. A wait
/// resolves one debounce window after the validated release it returns, so
/// the race is decided on those resolution instants; a dead heat goes to
/// Player 1, whose wait is polled first. `None` when neither history holds
/// a full press-and-release — neither wait would ever have resolved.
pub open spec fn spec_race_winner(
    sig1: RawSignal,
    db1: u64,
    sig2: RawSignal,
    db2: u64,
    go_ms: u64,
) -> Option<(ButtonRole, u64)> {
    let r1 = spec_full_press_release(sig1, db1, go_ms);
    let r2 = spec_full_press_release(sig2, db2, go_ms);
    if r1.is_some() && r2.is_some() {
        if r1.unwrap() + db1 <= r2.unwrap() + db2 {
            Some((ButtonRole::Player1, r1.unwrap()))
        } else {
            Some((ButtonRole::Player2, r2.unwrap()))
        }
    } else if r1.is_some() {
        Some((ButtonRole::Player1, r1.unwrap()))
    } else if r2.is_some() {
        Some((ButtonRole::Player2, r2.unwrap()))
    } else {
        None
    }
}

/// What one played round came to.
pub struct RoundResult {
    pub winner: ButtonRole,
    pub response_ms: u64,
    /// The winner's new score reached [`WIN_THRESHOLD`]: stop playing and
    /// compute the results.
    pub match_over: bool,
}

impl RoundEngine {
    /// One round from the "go" instant on: race both buttons'
    /// press-and-release waits over their recorded histories, clamp the
    /// winner's response time, and record the result. `None` — and an
    /// untouched engine — when neither wait resolves, in which case the
    /// round never ends.
    pub fn play_round(
        &mut self,
        b1: &Button,
        sig1: &RawSignal,
        b2: &Button,
        sig2: &RawSignal,
        go_ms: u64,
    ) -> (r: Option<RoundResult>)
        requires
            old(self).wf(),
            old(self).live(),
            old(self).rounds_played < TOTAL_ROUNDS,
            b1.wf(),
            b2.wf(),
            sig1.wf(),
            sig2.wf(),
            b1.role == ButtonRole::Player1,
            b2.role == ButtonRole::Player2,
        ensures
            r.is_some() == spec_race_winner(*sig1, b1.debounce, *sig2, b2.debounce, go_ms).is_some(),
            r.is_none() ==> *final(self) == *old(self),
            r.is_some() ==> final(self).wf(),
            r.is_some() ==> r.unwrap().winner == spec_race_winner(
                *sig1,
                b1.debounce,
                *sig2,
                b2.debounce,
                go_ms,
            ).unwrap().0,
            r.is_some() ==> r.unwrap().response_ms == spec_response_time(
                go_ms,
                spec_race_winner(*sig1, b1.debounce, *sig2, b2.debounce, go_ms).unwrap().1,
            ),
            r.is_some() ==> final(self).rounds_played == old(self).rounds_played + 1,
            r.is_some() ==> final(self).record.entries@ == old(self).record.entries@.update(
                old(self).rounds_played as int,
                (RoundEntry { winner: Some(r.unwrap().winner), response_ms: r.unwrap().response_ms }),
            ),
            r.is_some() ==> final(self).scores.spec_get(r.unwrap().winner) == old(
                self,
            ).scores.spec_get(r.unwrap().winner) + 1,
            r.is_some() ==> final(self).scores.spec_get(other_role(r.unwrap().winner)) == old(
                self,
            ).scores.spec_get(other_role(r.unwrap().winner)),
            r.is_some() ==> r.unwrap().match_over == !final(self).live(),
    {
        let r1: Option<u64> = b1.measure_full_press_release(sig1, go_ms);
        let r2: Option<u64> = b2.measure_full_press_release(sig2, go_ms);
        let picked: Option<(ButtonRole, u64)> = match (r1, r2) {
            (Some(rel1), Some(rel2)) => {
                if rel1 + b1.debounce <= rel2 + b2.debounce {
                    Some((ButtonRole::Player1, rel1))
                } else {
                    Some((ButtonRole::Player2, rel2))
                }
            },
            (Some(rel1), None) => Some((ButtonRole::Player1, rel1)),
            (None, Some(rel2)) => Some((ButtonRole::Player2, rel2)),
            (None, None) => None,
        };
        match picked {
            None => None,
            Some((winner, release_ms)) => {
                let score: u64 = response_time_ms(go_ms, release_ms);
                let over: bool = self.record_round_result(winner, score);
                Some(RoundResult { winner, response_ms: score, match_over: over })
            },
        }
    }
}

/// Whether a wait for a single validated press on either button, started
/// at `from_ms` with a budget of `wait_ms`, sees one before it times out. A
/// press wait returns one debounce window after the validated press
/// instant, so that is the instant held against the deadline.
pub open spec fn spec_start_gesture(
    sig1: RawSignal,
    db1: u64,
    sig2: RawSignal,
    db2: u64,
    from_ms: u64,
    wait_ms: u64,
) -> bool {
    let p1 = spec_wait_for_level(sig1, db1, Level::Low, 0, from_ms);
    let p2 = spec_wait_for_level(sig2, db2, Level::Low, 0, from_ms);
    ||| p1.is_some() && p1.unwrap() + db1 <= from_ms + wait_ms
    ||| p2.is_some() && p2.unwrap() + db2 <= from_ms + wait_ms
}

/// The idle-state start gesture: a single full press from either button
/// within `wait_ms` of `from_ms` starts a match; a timeout sends the
/// caller back to the idle pattern to retry.
pub fn start_gesture(
    b1: &Button,
    sig1: &RawSignal,
    b2: &Button,
    sig2: &RawSignal,
    from_ms: u64,
    wait_ms: u64,
) -> (started: bool)
    requires
        b1.wf(),
        b2.wf(),
        sig1.wf(),
        sig2.wf(),
        from_ms <= MAX_INSTANT_MS,
        wait_ms <= MAX_INSTANT_MS,
    ensures
        started == spec_start_gesture(*sig1, b1.debounce, *sig2, b2.debounce, from_ms, wait_ms),
{
    let deadline: u64 = from_ms + wait_ms;
    let p1: Option<u64> = b1.wait_for_press(sig1, from_ms);
    let p2: Option<u64> = b2.wait_for_press(sig2, from_ms);
    let first_in_time: bool = match p1 {
        Some(press_ms) => press_ms + b1.debounce <= deadline,
        None => false,
    };
    let second_in_time: bool = match p2 {
        Some(press_ms) => press_ms + b2.debounce <= deadline,
        None => false,
    };
    first_in_time || second_in_time
}

/// Reporting values computed when a match ends: the match winner's fastest,
/// slowest, and mean winning response time.
pub struct ResponseStats {
    pub best_ms: u64,
    pub worst_ms: u64,
    pub avg_ms: u64,
}

/// Sum of the response times of the rounds `role` won.
pub open spec fn spec_time_sum(entries: Seq<RoundEntry>, role: ButtonRole) -> int
    decreases entries.len(),
{
    if entries.len() == 0 {
        0
    } else {
        spec_time_sum(entries.drop_last(), role) + if entries.last().winner == Some(role) {
            entries.last().response_ms as int
        } else {
            0
        }
    }
}

/// Fastest response time among the rounds `role` won; `u64::MAX` when they
/// won none.
pub open spec fn spec_time_min(entries: Seq<RoundEntry>, role: ButtonRole) -> int
    decreases entries.len(),
{
    if entries.len() == 0 {
        u64::MAX as int
    } else {
        let rest: int = spec_time_min(entries.drop_last(), role);
        if entries.last().winner == Some(role) && entries.last().response_ms < rest {
            entries.last().response_ms as int
        } else {
            rest
        }
    }
}

/// Slowest response time among the rounds `role` won; `0` when they won
/// none.
pub open spec fn spec_time_max(entries: Seq<RoundEntry>, role: ButtonRole) -> int
    decreases entries.len(),
{
    if entries.len() == 0 {
        0
    } else {
        let rest: int = spec_time_max(entries.drop_last(), role);
        if entries.last().winner == Some(role) && entries.last().response_ms > rest {
            entries.last().response_ms as int
        } else {
            rest
        }
    }
}

impl RoundEngine {
    /// On entering `ComputingResults`: over only the rounds `winner`
    /// actually won, the minimum, maximum and mean response time. `None`
    /// when the record holds no round won by `winner`.
    pub fn compute_results(&self, winner: ButtonRole) -> (r: Option<ResponseStats>)
        requires
            self.wf(),
        ensures
            r.is_some() == (count_wins(self.record.entries@, winner) > 0),
            r.is_some() ==> r.unwrap().best_ms == spec_time_min(self.record.entries@, winner),
            r.is_some() ==> r.unwrap().worst_ms == spec_time_max(self.record.entries@, winner),
            r.is_some() ==> r.unwrap().avg_ms == spec_time_sum(self.record.entries@, winner)
                / count_wins(self.record.entries@, winner) as int,
    {
        let mut best: u64 = u64::MAX;
        let mut worst: u64 = 0;
        let mut sum: u128 = 0;
        let mut cnt: u64 = 0;
        let mut i: usize = 0;
        let n: usize = self.record.entries.len();
        while i < n
            invariant
                self.wf(),
                n == self.record.entries@.len(),
                i <= n,
                cnt == count_wins(self.record.entries@.take(i as int), winner),
                cnt <= i,
                sum == spec_time_sum(self.record.entries@.take(i as int), winner),
                sum <= cnt as int * MAX_INSTANT_MS,
                best == spec_time_min(self.record.entries@.take(i as int), winner),
                worst == spec_time_max(self.record.entries@.take(i as int), winner),
            decreases n - i,
        {
            proof {
                assert(self.record.entries@.take(i + 1).drop_last() =~= self.record.entries@.take(
                    i as int,
                ));
                assert(self.record.entries@.take(i + 1).last() == self.record.entries@[i as int]);
            }
            let e: RoundEntry = self.record.entries[i];
            let counted: bool = match e.winner {
                Some(wr) => wr == winner,
                None => false,
            };
            if counted {
                assert(e.winner.is_some() ==> i < self.rounds_played);
                cnt = cnt + 1;
                sum = sum + e.response_ms as u128;
                if e.response_ms < best {
                    best = e.response_ms;
                }
                if e.response_ms > worst {
                    worst = e.response_ms;
                }
            }
            i = i + 1;
        }
        proof {
            assert(self.record.entries@.take(n as int) =~= self.record.entries@);
        }
        if cnt == 0 {
            None
        } else {
            proof {
                assert(sum as int / cnt as int <= MAX_INSTANT_MS) by (nonlinear_arith)
                    requires
                        sum as int <= cnt as int * MAX_INSTANT_MS,
                        cnt >= 1,
                ;
            }
            let avg128: u128 = sum / cnt as u128;
            Some(ResponseStats { best_ms: best, worst_ms: worst, avg_ms: avg128 as u64 })
        }
    }
}

} // verus!
