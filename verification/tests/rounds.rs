use button_wars::button::{Button, ButtonRole};
use button_wars::led::{winner_led_role, LedRole};
use button_wars::round::{
    response_time_ms, start_gesture, RoundEngine, TOTAL_ROUNDS, WIN_THRESHOLD,
};
use button_wars::signal::{Level, RawSignal};

fn idle_high(flips: Vec<u64>) -> RawSignal {
    RawSignal { initial: Level::High, flips }
}

#[test]
fn threshold_is_the_best_of_five_majority() {
    assert_eq!(TOTAL_ROUNDS, 5);
    assert_eq!(WIN_THRESHOLD, 3);
}

#[test]
fn match_ends_the_instant_a_score_reaches_the_threshold() {
    // five rounds, threshold three; player 1 wins rounds 0, 1 and 3: the
    // match is over right after round 3, and round 4 is never played
    let mut e = RoundEngine::new();
    assert!(!e.record_round_result(ButtonRole::Player1, 100));
    assert!(!e.record_round_result(ButtonRole::Player1, 120));
    assert!(!e.record_round_result(ButtonRole::Player2, 90));
    assert!(e.record_round_result(ButtonRole::Player1, 110));

    assert_eq!(e.scores.player1_wins, 3);
    assert_eq!(e.scores.player2_wins, 1);
    assert_eq!(e.rounds_played, 4);
    // the slot for round 4 is still untouched
    assert_eq!(e.record.winner_of(4), None);
    assert_eq!(e.record.response_of(4), 0);
    assert_eq!(e.record.winner_of(3), Some(ButtonRole::Player1));
    assert_eq!(e.record.response_of(3), 110);
}

#[test]
fn waiting_entry_resets_scores_and_record() {
    let mut e = RoundEngine::new();
    assert!(!e.record_round_result(ButtonRole::Player2, 75));
    assert!(!e.record_round_result(ButtonRole::Player1, 66));

    e.reset_for_waiting();
    assert_eq!(e.scores.player1_wins, 0);
    assert_eq!(e.scores.player2_wins, 0);
    assert_eq!(e.rounds_played, 0);
    for i in 0..TOTAL_ROUNDS {
        assert_eq!(e.record.winner_of(i), None);
        assert_eq!(e.record.response_of(i), 0);
    }
}

#[test]
fn results_cover_only_the_rounds_the_winner_won() {
    let mut e = RoundEngine::new();
    assert!(!e.record_round_result(ButtonRole::Player1, 100));
    assert!(!e.record_round_result(ButtonRole::Player1, 120));
    assert!(!e.record_round_result(ButtonRole::Player2, 90));
    assert!(e.record_round_result(ButtonRole::Player1, 110));

    let winner = e.highest_scorer();
    assert_eq!(winner, ButtonRole::Player1);
    let stats = e.compute_results(winner).unwrap();
    assert_eq!(stats.best_ms, 100);
    assert_eq!(stats.worst_ms, 120);
    assert_eq!(stats.avg_ms, 110); // (100 + 120 + 110) / 3
}

#[test]
fn results_are_none_without_a_win() {
    let e = RoundEngine::new();
    assert!(e.compute_results(ButtonRole::Player1).is_none());
    assert!(e.compute_results(ButtonRole::Player2).is_none());
}

#[test]
fn equal_standing_reads_as_player_two() {
    let e = RoundEngine::new();
    assert_eq!(e.highest_scorer(), ButtonRole::Player2);
}

#[test]
fn response_time_is_clamped_at_the_go_instant() {
    assert_eq!(response_time_ms(2000, 2500), 500);
    assert_eq!(response_time_ms(2000, 2000), 0);
    // a release validated before "go" counts as a zero response
    assert_eq!(response_time_ms(2000, 1500), 0);
}

#[test]
fn play_round_records_the_faster_resolver() {
    let mut e = RoundEngine::new();
    let b1 = Button::new(ButtonRole::Player1);
    let b2 = Button::new(ButtonRole::Player2);
    // player 1 presses at 2300 and releases at 2700; player 2 presses
    // later but releases at 2600 and so resolves first
    let sig1 = idle_high(vec![2300, 2700]);
    let sig2 = idle_high(vec![2400, 2600]);

    let r = e.play_round(&b1, &sig1, &b2, &sig2, 2000).unwrap();
    assert_eq!(r.winner, ButtonRole::Player2);
    assert_eq!(r.response_ms, 600);
    assert!(!r.match_over);
    assert_eq!(e.rounds_played, 1);
    assert_eq!(e.record.winner_of(0), Some(ButtonRole::Player2));
    assert_eq!(e.record.response_of(0), 600);
    assert_eq!(e.scores.player2_wins, 1);
}

#[test]
fn play_round_dead_heat_goes_to_player_one() {
    let mut e = RoundEngine::new();
    let b1 = Button::new(ButtonRole::Player1);
    let b2 = Button::new(ButtonRole::Player2);
    let sig1 = idle_high(vec![2300, 2700]);
    let sig2 = idle_high(vec![2300, 2700]);

    let r = e.play_round(&b1, &sig1, &b2, &sig2, 2000).unwrap();
    assert_eq!(r.winner, ButtonRole::Player1);
    assert_eq!(r.response_ms, 700);
}

#[test]
fn play_round_without_any_press_changes_nothing() {
    let mut e = RoundEngine::new();
    let b1 = Button::new(ButtonRole::Player1);
    let b2 = Button::new(ButtonRole::Player2);
    let sig1 = idle_high(vec![]);
    // a burst too short for the window is not a press either
    let sig2 = idle_high(vec![2100, 2110]);

    assert!(e.play_round(&b1, &sig1, &b2, &sig2, 2000).is_none());
    assert_eq!(e.rounds_played, 0);
    assert_eq!(e.scores.player1_wins, 0);
    assert_eq!(e.scores.player2_wins, 0);
}

#[test]
fn start_gesture_needs_a_press_before_the_deadline() {
    let b1 = Button::new(ButtonRole::Player1);
    let b2 = Button::new(ButtonRole::Player2);
    let quiet = idle_high(vec![]);

    // a press validated within the two-second window starts the match
    let early = idle_high(vec![1500, 1800]);
    assert!(start_gesture(&b1, &early, &b2, &quiet, 0, 2000));
    assert!(start_gesture(&b1, &quiet, &b2, &early, 0, 2000));

    // the press wait returns at 1500 + 50, right at the deadline
    assert!(start_gesture(&b1, &early, &b2, &quiet, 0, 1550));
    assert!(!start_gesture(&b1, &early, &b2, &quiet, 0, 1549));

    // a press validated after the window is a timeout: retry
    let late = idle_high(vec![2300, 2500]);
    assert!(!start_gesture(&b1, &late, &b2, &quiet, 0, 2000));
    assert!(!start_gesture(&b1, &quiet, &b2, &quiet, 0, 2000));
}

#[test]
fn winner_led_matches_the_winning_button() {
    assert_eq!(winner_led_role(ButtonRole::Player1), LedRole::Player1);
    assert_eq!(winner_led_role(ButtonRole::Player2), LedRole::Player2);
}
