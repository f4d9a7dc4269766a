//! The end of a game: scoring it, counting the cross down, and deciding
//! whether the rubber goes on.

use crate::commands::{
    announcement_views, Announcement, AnnouncementView, EventKind, StoreStep,
};
use crate::cross::{CrossResult, CrossState, CrossView, CROSS_START};
use crate::errors::{plain_error, CommandError, ErrorKind, ErrorView};
use crate::normal_match::{MatchView, NormalMatch, NormalMatchStatus};
use crate::players::{is_host, user_ids, PlayerView, Roster};
use crate::schemas::{
    cross_scores_of, team_name, CrossScores, CrossWinner, GameCompleteResponse, GameScoringResult,
};
use crate::scoring::{GameResult, GameResultView, ScoringView, SjavsScoring};
use crate::trick::{GameTrickState, GameTrickView};
use vstd::prelude::*;
use vstd::string::*;

verus! {

/// What happens when a cross is won and the rubber is not over.
#[derive(Debug, Clone, Copy, PartialEq, Eq, Structural)]
pub enum RubberPolicy {
    /// The next cross starts: both teams count down from 24 again.
    ResetCross,
    /// The match ends with the cross.
    EndMatch,
}

/// What completing a game has brought.
#[derive(Debug)]
pub struct CompletionOutcome {
    /// The match, completed.
    pub game: NormalMatch,
    /// The cross after the game.
    pub cross: CrossState,
    /// The tallies of the game.
    pub scoring: SjavsScoring,
    /// The result of the game.
    pub result: GameResult,
    /// What the game did to the cross.
    pub cross_result: CrossResult,
    /// Whether the rubber is over.
    pub rubber_finished: bool,
    /// Whether the host may start another game.
    pub new_game_ready: bool,
    /// The writes to the store, in order.
    pub plan: Vec<StoreStep>,
    /// The events to publish, in order.
    pub events: Vec<Announcement>,
    /// The answer to the caller.
    pub response: GameCompleteResponse,
}

/// The tallies of a complete game.
pub open spec fn final_scoring(tricks: GameTrickView) -> ScoringView {
    ScoringView {
        trump_team_points: tricks.points_accumulated.0,
        opponent_team_points: tricks.points_accumulated.1,
        trump_team_tricks: tricks.tricks_won.0,
        opponent_team_tricks: tricks.tricks_won.1,
        trump_suit: tricks.current_trick.trump_suit,
        individual_vol: tricks.individual_vol(),
    }
}

/// The cross that a game is counted against: the one that the store
/// holds, or a fresh one for the match.
pub open spec fn cross_before(cross: Option<CrossView>, match_id: Seq<char>) -> CrossView {
    match cross {
        Some(c) => c,
        None => CrossView::fresh(match_id),
    }
}

/// Why completing a game is refused, if it is. In this order: the match
/// is unknown; the match is not in play; there are no tricks; the game is
/// not complete; the card points of the two teams do not add up to 120;
/// the counts of the cross leave no room for the result.
pub open spec fn completion_refusal(
    game: Option<MatchView>,
    tricks: Option<GameTrickView>,
    cross: Option<CrossView>,
) -> Option<ErrorView> {
    if game is None {
        Some(plain_error(ErrorKind::NotFound, "Game not found"@))
    } else if game->0.status != NormalMatchStatus::Playing {
        Some(plain_error(ErrorKind::Conflict, "Game is not in playing phase"@))
    } else if tricks is None {
        Some(plain_error(ErrorKind::NotFound, "Trick state not found"@))
    } else if !tricks->0.game_complete {
        Some(plain_error(ErrorKind::Conflict, "Game not complete"@))
    } else if !final_scoring(tricks->0).points_add_up() {
        Some(plain_error(ErrorKind::Fatal, "Invalid point totals in completed game"@))
    } else if !cross_before(cross, game->0.id).can_apply(final_scoring(tricks->0).game_result()) {
        Some(plain_error(ErrorKind::Fatal, "Cross state out of range"@))
    } else {
        None
    }
}

/// The number of the cross after a game: one more where the game won the
/// cross, as far as the number can grow.
pub open spec fn cross_number_after(game: MatchView, cross_won: bool) -> u32 {
    if cross_won && game.current_cross < u32::MAX {
        (game.current_cross + 1) as u32
    } else {
        game.current_cross
    }
}

/// Whether the rubber is over: a cross was won, and it was the last of
/// the crosses that the match is played for.
pub open spec fn rubber_over(game: MatchView, cross_won: bool) -> bool {
    cross_won && cross_number_after(game, cross_won) >= game.number_of_crosses
}

/// The match after a game: completed, with the crosses counted.
pub open spec fn game_after_completion(game: MatchView, cross_won: bool) -> MatchView {
    MatchView {
        status: NormalMatchStatus::Completed,
        current_cross: cross_number_after(game, cross_won),
        ..game
    }
}

/// The cross with which the next cross starts: both teams at 24 again and
/// no bonus, with the crosses that each team has won.
pub open spec fn next_cross(cross: CrossView) -> CrossView {
    CrossView {
        trump_team_score: CROSS_START,
        opponent_team_score: CROSS_START,
        next_game_bonus: 0,
        cross_complete: false,
        ..cross
    }
}

/// The cross after a game: counted down by the result, and started anew
/// where the cross was won, the rubber goes on, and the policy says so.
pub open spec fn cross_after_completion(
    cross: CrossView,
    result: GameResultView,
    game: MatchView,
    policy: RubberPolicy,
) -> CrossView {
    let counted = cross.after(result);
    let won = cross.report(result).cross_won is Some;
    if won && !rubber_over(game, won) && policy == RubberPolicy::ResetCross {
        next_cross(counted)
    } else {
        counted
    }
}

/// The writes that complete a game: the cross, the result for later
/// snapshots, then the record of the match, and last the tricks go.
pub open spec fn completion_plan() -> Seq<StoreStep> {
    seq![
        StoreStep::WriteCrossState,
        StoreStep::WriteGameResult,
        StoreStep::WriteMatch,
        StoreStep::ClearTrickState,
    ]
}

/// Completes a game: scores it, counts the cross down, and marks the
/// match completed.
///
/// Refused unless the match is in play, its tricks are known, and all
/// eight tricks are over. A game whose card points do not add up to 120 is not
/// scored; that is a broken invariant. The result of the game follows the
/// scoring table; the count of the side that lost goes down by it. Where
/// the game won the cross, the number of the cross grows, and the rubber
/// is over with the last cross; else the policy decides whether the next
/// cross starts.
pub fn complete_game(
    game: Option<NormalMatch>,
    tricks: Option<&GameTrickState>,
    cross: Option<CrossState>,
    roster: &Roster,
    policy: RubberPolicy,
) -> (res: Result<CompletionOutcome, CommandError>)
    ensures
        res is Err <==> completion_refusal(crate::bidding::opt_match(game), match tricks {
            Some(t) => Some(t@),
            None => None,
        }, match cross {
            Some(c) => Some(c@),
            None => None,
        }) is Some,
        res matches Err(e) ==> Some(e@) == completion_refusal(
            crate::bidding::opt_match(game),
            match tricks {
                Some(t) => Some(t@),
                None => None,
            },
            match cross {
                Some(c) => Some(c@),
                None => None,
            },
        ),
        res matches Ok(outcome) ==> {
            let before = game->0@;
            let scoring = final_scoring(tricks->0@);
            let result = scoring.game_result();
            let old_cross = cross_before(match cross {
                Some(c) => Some(c@),
                None => None,
            }, before.id);
            let won = old_cross.report(result).cross_won is Some;
            &&& outcome.scoring@ == scoring
            &&& outcome.result@ == result
            &&& outcome.cross_result == old_cross.report(result)
            &&& outcome.cross@ == cross_after_completion(old_cross, result, before, policy)
            &&& outcome.game@ == game_after_completion(before, won)
            &&& outcome.rubber_finished == rubber_over(before, won)
            &&& outcome.new_game_ready == (!outcome.rubber_finished && !outcome.cross@.cross_complete)
            &&& outcome.plan@ == completion_plan()
            &&& announcement_views(outcome.events@) == seq![
                AnnouncementView {
                    kind: EventKind::GameComplete,
                    game_id: before.id,
                    affected_players: user_ids(roster@),
                    message: result.description,
                },
            ]
            &&& outcome.response.game_id@ == before.id
            &&& outcome.response.cross_scores == cross_scores_of(outcome.cross@)
            &&& outcome.response.new_game_ready == outcome.new_game_ready
            &&& outcome.response.cross_won is Some <==> won
            &&& won ==> outcome.response.cross_won->0.winning_team@ == team_name(
                old_cross.report(result).cross_won->0.winning_team,
            ) && outcome.response.cross_won->0.double_victory == old_cross.report(
                result,
            ).cross_won->0.double_victory
            &&& outcome.response.message@ == "Game completed and scored successfully"@
            &&& outcome.response.scoring.shows(scoring, result)
        },
{
    let mut game = match game {
        Some(g) => g,
        None => {
            return Err(CommandError::new(ErrorKind::NotFound, "Game not found"));
        },
    };
    if game.status != NormalMatchStatus::Playing {
        return Err(CommandError::new(ErrorKind::Conflict, "Game is not in playing phase"));
    }
    let tricks = match tricks {
        Some(t) => t,
        None => {
            return Err(CommandError::new(ErrorKind::NotFound, "Trick state not found"));
        },
    };
    let scoring = match tricks.get_final_scoring() {
        Ok(s) => s,
        Err(_) => {
            return Err(CommandError::new(ErrorKind::Conflict, "Game not complete"));
        },
    };
    if !scoring.validate_total_points() {
        return Err(CommandError::new(ErrorKind::Fatal, "Invalid point totals in completed game"));
    }
    let result = scoring.calculate_game_result();
    let mut cross = match cross {
        Some(c) => c,
        None => CrossState::new(game.id.clone()),
    };
    if !can_apply_result(&cross, &result) {
        return Err(CommandError::new(ErrorKind::Fatal, "Cross state out of range"));
    }
    let ghost before = game@;
    let cross_result = cross.apply_game_result(&result);
    let won = cross_result.cross_won.is_some();
    if won && game.current_cross < u32::MAX {
        game.current_cross = game.current_cross + 1;
    }
    game.status = NormalMatchStatus::Completed;
    let rubber_finished = won && game.current_cross >= game.number_of_crosses;
    if won && !rubber_finished && policy == RubberPolicy::ResetCross {
        cross.trump_team_score = CROSS_START;
        cross.opponent_team_score = CROSS_START;
        cross.next_game_bonus = 0;
        cross.cross_complete = false;
    }
    let new_game_ready = !rubber_finished && !cross.cross_complete;
    let mut plan: Vec<StoreStep> = Vec::new();
    plan.push(StoreStep::WriteCrossState);
    plan.push(StoreStep::WriteGameResult);
    plan.push(StoreStep::WriteMatch);
    plan.push(StoreStep::ClearTrickState);
    assert(plan@ =~= completion_plan());
    let mut events: Vec<Announcement> = Vec::new();
    events.push(
        Announcement::new(
            EventKind::GameComplete,
            game.id.as_str(),
            roster.user_ids(),
            result.description.as_str(),
        ),
    );
    assert(announcement_views(events@) =~= seq![
        AnnouncementView {
            kind: EventKind::GameComplete,
            game_id: before.id,
            affected_players: user_ids(roster@),
            message: result@.description,
        },
    ]);
    let response = GameCompleteResponse {
        message: String::from_str("Game completed and scored successfully"),
        game_id: game.id.clone(),
        scoring: GameScoringResult::of(&scoring, &result),
        cross_scores: CrossScores::of(&cross),
        cross_won: match &cross_result.cross_won {
            Some(winner) => Some(CrossWinner::of(winner, tricks.trump_team)),
            None => None,
        },
        new_game_ready,
    };
    Ok(
        CompletionOutcome {
            game,
            cross,
            scoring,
            result,
            cross_result,
            rubber_finished,
            new_game_ready,
            plan,
            events,
            response,
        },
    )
}

/// Whether the counts of the cross leave room for the result of a game.
pub fn can_apply_result(cross: &CrossState, result: &GameResult) -> (ok: bool)
    ensures
        ok == cross@.can_apply(result@),
{
    let bonus = cross.next_game_bonus as i32;
    let trump_won = result.trump_team_score > 0;
    let from_trump_team: i32 = if trump_won {
        result.opponent_team_score as i32
    } else {
        result.opponent_team_score as i32 + bonus
    };
    let from_opponents: i32 = if trump_won {
        result.trump_team_score as i32 + bonus
    } else {
        0
    };
    from_trump_team <= 127 && from_opponents <= 127 && cross.trump_team_score as i32
        - from_trump_team >= -128 && cross.opponent_team_score as i32 - from_opponents >= -128
        && cross.trump_team_crosses < u8::MAX && cross.opponent_team_crosses < u8::MAX
}

/// Why opening the match for another game is refused, if it is: the user
/// is not the host; the match is not completed; the cross is won and no
/// new one has started.
pub open spec fn reopen_refusal(
    game: MatchView,
    players: Seq<PlayerView>,
    user: Seq<char>,
    cross: CrossView,
) -> Option<ErrorView> {
    if !is_host(players, user) {
        Some(plain_error(ErrorKind::Forbidden, "Only host can start a new game"@))
    } else if game.status != NormalMatchStatus::Completed {
        Some(plain_error(ErrorKind::Conflict, "Game is not completed"@))
    } else if cross.cross_complete {
        Some(plain_error(ErrorKind::Conflict, "Cross is complete - cannot start new game"@))
    } else {
        None
    }
}

/// Opens a completed match for another game of the rubber: the match
/// waits again, so that the host can start the game. Refused unless the
/// user is the host, the match is completed, and the cross goes on.
pub fn reopen_for_next_game(game: &mut NormalMatch, roster: &Roster, user_id: &str, cross: &CrossState) -> (res:
    Result<(), CommandError>)
    ensures
        res is Err <==> reopen_refusal(old(game)@, roster@, user_id@, cross@) is Some,
        res matches Err(e) ==> final(game)@ == old(game)@ && Some(e@) == reopen_refusal(
            old(game)@,
            roster@,
            user_id@,
            cross@,
        ),
        res is Ok ==> final(game)@ == (MatchView {
            status: NormalMatchStatus::Waiting,
            ..old(game)@
        }),
{
    if !roster.is_host(user_id) {
        return Err(CommandError::new(ErrorKind::Forbidden, "Only host can start a new game"));
    }
    if game.status != NormalMatchStatus::Completed {
        return Err(CommandError::new(ErrorKind::Conflict, "Game is not completed"));
    }
    if cross.cross_complete {
        return Err(
            CommandError::new(ErrorKind::Conflict, "Cross is complete - cannot start new game"),
        );
    }
    game.status = NormalMatchStatus::Waiting;
    Ok(())
}

} // verus!
