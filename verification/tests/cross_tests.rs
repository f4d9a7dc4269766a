use sjavs::cross::{CrossState, CrossTeam};
use sjavs::scoring::{GameResult, SjavsResult};

#[test]
fn test_new_cross_state() {
    let cross = CrossState::new("test_match".to_string());
    assert_eq!(cross.trump_team_score, 24);
    assert_eq!(cross.opponent_team_score, 24);
    assert_eq!(cross.trump_team_crosses, 0);
    assert_eq!(cross.opponent_team_crosses, 0);
    assert!(!cross.cross_complete);
}

#[test]
fn test_apply_normal_win() {
    let mut cross = CrossState::new("test".to_string());

    let game_result = GameResult {
        trump_team_score: 4,
        opponent_team_score: 0,
        result_type: SjavsResult::TrumpTeamWin,
        description: "Trump team won".to_string(),
    };

    let result = cross.apply_game_result(&game_result);
    assert_eq!(cross.trump_team_score, 24);
    assert_eq!(cross.opponent_team_score, 20);
    assert!(result.cross_won.is_none());
}

#[test]
fn test_cross_completion() {
    let mut cross = CrossState::new("test".to_string());
    cross.trump_team_score = 4;

    let game_result = GameResult {
        trump_team_score: 8,
        opponent_team_score: 0,
        result_type: SjavsResult::TrumpTeamWin,
        description: "Trump team won big".to_string(),
    };

    let result = cross.apply_game_result(&game_result);
    assert_eq!(cross.trump_team_score, 4);
    assert_eq!(cross.opponent_team_score, 16);
    assert!(result.cross_won.is_none());
    assert!(!cross.cross_complete);

    let lost = GameResult {
        trump_team_score: 0,
        opponent_team_score: 8,
        result_type: SjavsResult::OpponentWin,
        description: "Opponents won big".to_string(),
    };
    let result = cross.apply_game_result(&lost);
    assert_eq!(cross.trump_team_score, -4);
    assert_eq!(cross.opponent_team_score, 16);
    assert!(result.cross_won.is_some());
    assert_eq!(result.cross_won.unwrap().winning_team, CrossTeam::TrumpTeam);
    assert!(cross.cross_complete);
}

#[test]
fn test_double_victory() {
    let mut cross = CrossState::new("test".to_string());
    cross.trump_team_score = 4;

    let game_result = GameResult {
        trump_team_score: 8,
        opponent_team_score: 0,
        result_type: SjavsResult::TrumpTeamWin,
        description: "Trump team won".to_string(),
    };

    let result = cross.apply_game_result(&game_result);
    assert!(result.cross_won.is_none());
    assert_eq!(cross.opponent_team_score, 16);

    let mut cross = CrossState::new("test".to_string());
    cross.trump_team_score = 4;
    let lost = GameResult {
        trump_team_score: 0,
        opponent_team_score: 8,
        result_type: SjavsResult::OpponentWin,
        description: "Opponents won".to_string(),
    };
    let result = cross.apply_game_result(&lost);
    let winner = result.cross_won.unwrap();
    assert!(winner.double_victory);
    assert_eq!(winner.final_score, (-4, 24));
}

#[test]
fn test_tie_bonus() {
    let mut cross = CrossState::new("test".to_string());

    let tie_result = GameResult {
        trump_team_score: 0,
        opponent_team_score: 0,
        result_type: SjavsResult::Tie,
        description: "Tie game".to_string(),
    };

    let result = cross.apply_game_result(&tie_result);
    assert_eq!(cross.next_game_bonus, 2);
    assert_eq!(result.next_game_bonus, 2);

    let win_result = GameResult {
        trump_team_score: 4,
        opponent_team_score: 0,
        result_type: SjavsResult::TrumpTeamWin,
        description: "Trump team won".to_string(),
    };

    let result2 = cross.apply_game_result(&win_result);
    assert_eq!(cross.opponent_team_score, 18);
    assert_eq!(cross.trump_team_score, 24);
    assert_eq!(result2.bonus_applied, 2);
    assert_eq!(cross.next_game_bonus, 0);
    assert!(result2.cross_won.is_none());
}

#[test]
fn test_on_the_hook() {
    let mut cross = CrossState::new("test".to_string());
    cross.trump_team_score = 6;
    cross.opponent_team_score = 6;

    let (trump_hook, opponent_hook) = cross.get_hook_status();
    assert!(trump_hook);
    assert!(opponent_hook);
}

#[test]
fn test_vol_scenario() {
    let mut cross = CrossState::new("test".to_string());
    cross.trump_team_score = 8;

    let vol_result = GameResult {
        trump_team_score: 16,
        opponent_team_score: 0,
        result_type: SjavsResult::Vol,
        description: "Vol in clubs".to_string(),
    };

    let result = cross.apply_game_result(&vol_result);
    assert_eq!(cross.trump_team_score, 8);
    assert_eq!(cross.opponent_team_score, 8);
    assert!(result.cross_won.is_none());
    assert!(!cross.cross_complete);

    let result = cross.apply_game_result(&vol_result);
    assert_eq!(cross.opponent_team_score, -8);
    assert!(result.cross_won.is_some());
    assert!(cross.cross_complete);
}

#[test]
fn cross_test_opponent_vol() {
    let mut cross = CrossState::new("test".to_string());
    cross.opponent_team_score = 10;

    let opponent_vol_result = GameResult {
        trump_team_score: 0,
        opponent_team_score: 16,
        result_type: SjavsResult::OpponentVol,
        description: "Opponents won all tricks".to_string(),
    };

    let result = cross.apply_game_result(&opponent_vol_result);
    assert_eq!(cross.opponent_team_score, 10);
    assert_eq!(cross.trump_team_score, 8);
    assert!(result.cross_won.is_none());
    assert!(!cross.cross_complete);

    let vol_result = GameResult {
        trump_team_score: 16,
        opponent_team_score: 0,
        result_type: SjavsResult::Vol,
        description: "Vol in clubs".to_string(),
    };
    let result = cross.apply_game_result(&vol_result);
    assert_eq!(cross.opponent_team_score, -6);
    assert!(result.cross_won.is_some());
    assert_eq!(result.cross_won.unwrap().winning_team, CrossTeam::OpponentTeam);
    assert!(cross.cross_complete);
}

fn result(trump: u8, opponents: u8) -> GameResult {
    GameResult {
        trump_team_score: trump,
        opponent_team_score: opponents,
        result_type: SjavsResult::TrumpTeamWin,
        description: String::new(),
    }
}

#[test]
fn reaching_exactly_zero_wins_the_cross() {
    let mut cross = CrossState::new("m".to_string());
    cross.trump_team_score = 4;
    cross.opponent_team_score = 10;
    let report = cross.apply_game_result(&result(0, 4));
    assert_eq!(cross.trump_team_score, 0);
    assert!(cross.cross_complete);
    assert_eq!(cross.trump_team_crosses, 1);
    assert_eq!(cross.opponent_team_crosses, 0);
    let winner = report.cross_won.unwrap();
    assert_eq!(winner.winning_team, CrossTeam::TrumpTeam);
    assert!(!winner.double_victory);
    assert_eq!(winner.final_score, (0, 10));
    assert_eq!(winner.crosses_won, 1);
    assert_eq!(report.trump_team_old_score, 4);
    assert_eq!(report.trump_team_new_score, 0);
    assert!(report.cross_complete);
    assert_eq!(cross.start_new_game(), Err("Cross is complete - cannot start new game".to_string()));
}

#[test]
fn opponents_reach_zero() {
    let mut cross = CrossState::new("m".to_string());
    cross.opponent_team_score = 8;
    let report = cross.apply_game_result(&result(8, 0));
    assert_eq!(cross.opponent_team_score, 0);
    assert_eq!(cross.trump_team_score, 24);
    let winner = report.cross_won.unwrap();
    assert_eq!(winner.winning_team, CrossTeam::OpponentTeam);
    assert!(winner.double_victory);
    assert_eq!(cross.opponent_team_crosses, 1);
}

#[test]
fn one_above_zero_does_not_win() {
    let mut cross = CrossState::new("m".to_string());
    cross.trump_team_score = 5;
    let report = cross.apply_game_result(&result(0, 4));
    assert_eq!(cross.trump_team_score, 1);
    assert_eq!(cross.opponent_team_score, 24);
    assert!(report.cross_won.is_none());
    assert!(!cross.cross_complete);
    assert_eq!(cross.start_new_game(), Ok(()));
}

#[test]
fn tie_carries_two_into_the_next_game() {
    let mut cross = CrossState::new("m".to_string());
    let first = cross.apply_game_result(&result(0, 0));
    assert_eq!(first.trump_team_new_score, 24);
    assert_eq!(first.opponent_team_new_score, 24);
    assert_eq!(first.trump_team_old_score, 24);
    assert_eq!(first.bonus_applied, 0);
    assert_eq!(first.next_game_bonus, 2);
    assert!(first.cross_won.is_none());
    assert!(!first.cross_complete);
    let second = cross.apply_game_result(&result(4, 0));
    assert_eq!(second.opponent_team_old_score - second.opponent_team_new_score, 6);
    assert_eq!(second.trump_team_old_score, second.trump_team_new_score);
    assert_eq!(second.opponent_team_new_score, 18);
    assert_eq!(second.trump_team_new_score, 24);
    assert_eq!(second.bonus_applied, 2);
    assert_eq!(second.next_game_bonus, 0);
    assert!(second.cross_won.is_none());
}

#[test]
fn the_losing_side_counts_down_and_the_winner_stays() {
    let mut cross = CrossState::new("m".to_string());
    cross.apply_game_result(&result(2, 0));
    assert_eq!((cross.trump_team_score, cross.opponent_team_score), (24, 22));
    cross.apply_game_result(&result(0, 8));
    assert_eq!((cross.trump_team_score, cross.opponent_team_score), (16, 22));
    cross.apply_game_result(&result(16, 0));
    assert_eq!((cross.trump_team_score, cross.opponent_team_score), (16, 6));
    assert_eq!(cross.get_hook_status(), (false, true));
    assert!(!cross.cross_complete);
}

#[test]
fn a_tie_makes_the_next_game_worth_two_more_to_either_side() {
    let mut cross = CrossState::new("m".to_string());
    cross.apply_game_result(&result(0, 0));
    let lost = cross.apply_game_result(&result(0, 4));
    assert_eq!(lost.bonus_applied, 2);
    assert_eq!((cross.trump_team_score, cross.opponent_team_score), (18, 24));
    assert_eq!(cross.next_game_bonus, 0);
}

#[test]
fn two_ties_in_a_row_carry_two() {
    let mut cross = CrossState::new("m".to_string());
    cross.apply_game_result(&result(0, 0));
    let again = cross.apply_game_result(&result(0, 0));
    assert_eq!(again.bonus_applied, 2);
    assert_eq!(cross.next_game_bonus, 2);
    assert_eq!(cross.trump_team_score, 24);
}

#[test]
fn summary_and_reset() {
    let mut cross = CrossState::new("m".to_string());
    cross.trump_team_score = 6;
    cross.opponent_team_score = 7;
    cross.trump_team_crosses = 2;
    cross.next_game_bonus = 2;
    let summary = cross.get_summary();
    assert_eq!(summary.trump_team_score, 6);
    assert_eq!(summary.opponent_team_score, 7);
    assert!(summary.trump_team_on_hook);
    assert!(!summary.opponent_team_on_hook);
    assert_eq!(summary.trump_team_crosses, 2);
    assert_eq!(summary.next_game_bonus, 2);
    assert!(!summary.cross_complete);
    cross.reset_for_new_cross();
    assert_eq!(cross.trump_team_score, 24);
    assert_eq!(cross.opponent_team_score, 24);
    assert_eq!(cross.trump_team_crosses, 0);
    assert_eq!(cross.next_game_bonus, 0);
    assert_eq!(cross.match_id, "m");
    let won = cross.check_cross_completion();
    assert!(won.is_none());
}
