//! The rubber: both teams start at 24. After each game the count of the
//! side that lost goes down by what the game was worth, the count of the
//! side that won stays, and a team wins the cross when its count reaches
//! zero or less.

use crate::scoring::{GameResult, GameResultView};
use vstd::prelude::*;
use vstd::string::*;

verus! {

/// The score from which both teams count down.
pub const CROSS_START: i8 = 24;

/// The count at which a team is on the hook.
pub const HOOK: i8 = 6;

/// What a tie adds to the worth of the next game.
pub const TIE_BONUS: u8 = 2;

/// The state of a cross.
#[derive(Debug, Clone)]
pub struct CrossState {
    /// The count of the trump team; starts at 24 and goes down by what
    /// the opponents win.
    pub trump_team_score: i8,
    /// The count of the opponents; starts at 24 and goes down by what the
    /// trump team wins.
    pub opponent_team_score: i8,
    /// Crosses won by the trump team.
    pub trump_team_crosses: u8,
    /// Crosses won by the opponents.
    pub opponent_team_crosses: u8,
    /// What the next game is worth on top of its score, after a tie.
    pub next_game_bonus: u8,
    /// The match that the cross belongs to.
    pub match_id: String,
    /// Whether the cross is won.
    pub cross_complete: bool,
}

/// A cross as plain values.
pub struct CrossView {
    pub trump_team_score: i8,
    pub opponent_team_score: i8,
    pub trump_team_crosses: u8,
    pub opponent_team_crosses: u8,
    pub next_game_bonus: u8,
    pub match_id: Seq<char>,
    pub cross_complete: bool,
}

/// The two sides of a game.
#[derive(Debug, Clone, Copy, PartialEq, Eq, Structural)]
pub enum CrossTeam {
    TrumpTeam,
    OpponentTeam,
}

/// Who won a cross, and how.
#[derive(Debug, Clone, Copy)]
pub struct CrossWinner {
    /// The team that won.
    pub winning_team: CrossTeam,
    /// Whether the other team still stood at 24.
    pub double_victory: bool,
    /// The counts at the end: trump team, opponents.
    pub final_score: (i8, i8),
    /// How many crosses the winning team has won.
    pub crosses_won: u8,
}

/// What applying the result of a game did to the cross.
#[derive(Debug, Clone, Copy)]
pub struct CrossResult {
    pub trump_team_old_score: i8,
    pub opponent_team_old_score: i8,
    pub trump_team_new_score: i8,
    pub opponent_team_new_score: i8,
    /// The winner of the cross, if the game decided it.
    pub cross_won: Option<CrossWinner>,
    /// The bonus that this game used up.
    pub bonus_applied: u8,
    /// The bonus that the next game will add.
    pub next_game_bonus: u8,
    pub cross_complete: bool,
}

/// The cross at a glance.
#[derive(Debug, Clone, Copy)]
pub struct CrossSummary {
    pub trump_team_score: i8,
    pub opponent_team_score: i8,
    pub trump_team_crosses: u8,
    pub opponent_team_crosses: u8,
    pub trump_team_on_hook: bool,
    pub opponent_team_on_hook: bool,
    pub next_game_bonus: u8,
    pub cross_complete: bool,
}

impl View for CrossState {
    type V = CrossView;

    open spec fn view(&self) -> CrossView {
        CrossView {
            trump_team_score: self.trump_team_score,
            opponent_team_score: self.opponent_team_score,
            trump_team_crosses: self.trump_team_crosses,
            opponent_team_crosses: self.opponent_team_crosses,
            next_game_bonus: self.next_game_bonus,
            match_id: self.match_id@,
            cross_complete: self.cross_complete,
        }
    }
}

impl CrossView {
    /// A game in which neither side scores is a tie.
    pub open spec fn is_tie(game: GameResultView) -> bool {
        game.trump_team_score == 0 && game.opponent_team_score == 0
    }

    /// The trump team won the game: it scored.
    pub open spec fn trump_team_won(game: GameResultView) -> bool {
        game.trump_team_score > 0
    }

    /// What comes off the count of the opponents: what the trump team
    /// scored and, where it scored, the bonus.
    pub open spec fn opponent_delta(self, game: GameResultView) -> int {
        if Self::trump_team_won(game) {
            game.trump_team_score + self.next_game_bonus
        } else {
            0
        }
    }

    /// What comes off the count of the trump team: what the opponents
    /// scored and, where the trump team scored nothing, the bonus.
    pub open spec fn trump_delta(self, game: GameResultView) -> int {
        if Self::trump_team_won(game) {
            game.opponent_team_score as int
        } else {
            game.opponent_team_score + self.next_game_bonus
        }
    }

    /// The numbers fit: counting down stays within the range of the
    /// counters, and the winner's count of crosses can grow.
    pub open spec fn can_apply(self, game: GameResultView) -> bool {
        &&& self.trump_delta(game) <= i8::MAX
        &&& self.opponent_delta(game) <= i8::MAX
        &&& self.trump_team_score - self.trump_delta(game) >= i8::MIN
        &&& self.opponent_team_score - self.opponent_delta(game) >= i8::MIN
        &&& self.trump_team_crosses < u8::MAX
        &&& self.opponent_team_crosses < u8::MAX
    }

    /// The cross after its counts were looked at: a count of zero or less
    /// wins the cross for its team, the trump team first.
    pub open spec fn after_check(self) -> CrossView {
        if self.trump_team_score <= 0 {
            CrossView {
                trump_team_crosses: (self.trump_team_crosses + 1) as u8,
                cross_complete: true,
                ..self
            }
        } else if self.opponent_team_score <= 0 {
            CrossView {
                opponent_team_crosses: (self.opponent_team_crosses + 1) as u8,
                cross_complete: true,
                ..self
            }
        } else {
            self
        }
    }

    /// The winner that looking at the counts finds.
    pub open spec fn winner(self) -> Option<CrossWinner> {
        if self.trump_team_score <= 0 {
            Some(
                CrossWinner {
                    winning_team: CrossTeam::TrumpTeam,
                    double_victory: self.opponent_team_score == CROSS_START,
                    final_score: (self.trump_team_score, self.opponent_team_score),
                    crosses_won: (self.trump_team_crosses + 1) as u8,
                },
            )
        } else if self.opponent_team_score <= 0 {
            Some(
                CrossWinner {
                    winning_team: CrossTeam::OpponentTeam,
                    double_victory: self.trump_team_score == CROSS_START,
                    final_score: (self.trump_team_score, self.opponent_team_score),
                    crosses_won: (self.opponent_team_crosses + 1) as u8,
                },
            )
        } else {
            None
        }
    }

    /// The cross with a game counted, before anybody looks for a winner.
    /// A tie leaves the counts and sets the bonus. Any other game takes
    /// its worth, the bonus with it, off the count of the side that lost,
    /// and uses the bonus up.
    pub open spec fn counted(self, game: GameResultView) -> CrossView {
        if Self::is_tie(game) {
            CrossView { next_game_bonus: TIE_BONUS, ..self }
        } else {
            CrossView {
                trump_team_score: (self.trump_team_score - self.trump_delta(game)) as i8,
                opponent_team_score: (self.opponent_team_score - self.opponent_delta(game)) as i8,
                next_game_bonus: 0,
                ..self
            }
        }
    }

    /// The cross after the result of a game was applied.
    pub open spec fn after(self, game: GameResultView) -> CrossView {
        if Self::is_tie(game) {
            self.counted(game)
        } else {
            self.counted(game).after_check()
        }
    }

    /// What applying the result of a game reports.
    pub open spec fn report(self, game: GameResultView) -> CrossResult {
        CrossResult {
            trump_team_old_score: self.trump_team_score,
            opponent_team_old_score: self.opponent_team_score,
            trump_team_new_score: self.after(game).trump_team_score,
            opponent_team_new_score: self.after(game).opponent_team_score,
            cross_won: if Self::is_tie(game) {
                None
            } else {
                self.counted(game).winner()
            },
            bonus_applied: self.next_game_bonus,
            next_game_bonus: self.after(game).next_game_bonus,
            cross_complete: if Self::is_tie(game) {
                false
            } else {
                self.after(game).cross_complete
            },
        }
    }

    /// A cross at its start.
    pub open spec fn fresh(match_id: Seq<char>) -> CrossView {
        CrossView {
            trump_team_score: CROSS_START,
            opponent_team_score: CROSS_START,
            trump_team_crosses: 0,
            opponent_team_crosses: 0,
            next_game_bonus: 0,
            match_id,
            cross_complete: false,
        }
    }
}

impl CrossState {
    /// A cross at its start: both teams at 24.
    pub fn new(match_id: String) -> (cross: CrossState)
        ensures
            cross@ == CrossView::fresh(match_id@),
    {
        CrossState {
            trump_team_score: 24,
            opponent_team_score: 24,
            trump_team_crosses: 0,
            opponent_team_crosses: 0,
            next_game_bonus: 0,
            match_id,
            cross_complete: false,
        }
    }

    /// Applies the result of a game. The count of the side that lost goes
    /// down by what the other side scored and by the bonus of a tie
    /// before; the count of the side that won stays. A tie changes no
    /// count and sets the bonus for the next game. A team whose count
    /// reaches zero or less wins the cross.
    pub fn apply_game_result(&mut self, game_result: &GameResult) -> (result: CrossResult)
        requires
            old(self)@.can_apply(game_result@),
        ensures
            final(self)@ == old(self)@.after(game_result@),
            result == old(self)@.report(game_result@),
    {
        let bonus_applied = self.next_game_bonus;
        if game_result.trump_team_score == 0 && game_result.opponent_team_score == 0 {
            self.next_game_bonus = TIE_BONUS;
            return CrossResult {
                trump_team_old_score: self.trump_team_score,
                opponent_team_old_score: self.opponent_team_score,
                trump_team_new_score: self.trump_team_score,
                opponent_team_new_score: self.opponent_team_score,
                cross_won: None,
                bonus_applied,
                next_game_bonus: self.next_game_bonus,
                cross_complete: false,
            };
        }
        self.next_game_bonus = 0;
        let old_trump_score = self.trump_team_score;
        let old_opponent_score = self.opponent_team_score;
        if game_result.trump_team_score > 0 {
            let worth: u8 = game_result.trump_team_score + bonus_applied;
            self.trump_team_score = self.trump_team_score - (game_result.opponent_team_score as i8);
            self.opponent_team_score = self.opponent_team_score - (worth as i8);
        } else {
            let worth: u8 = game_result.opponent_team_score + bonus_applied;
            self.trump_team_score = self.trump_team_score - (worth as i8);
        }
        let cross_won = self.check_cross_completion();
        CrossResult {
            trump_team_old_score: old_trump_score,
            opponent_team_old_score: old_opponent_score,
            trump_team_new_score: self.trump_team_score,
            opponent_team_new_score: self.opponent_team_score,
            cross_won,
            bonus_applied,
            next_game_bonus: self.next_game_bonus,
            cross_complete: self.cross_complete,
        }
    }

    /// Looks for a winner: a count of zero or less wins the cross, and it
    /// is a double victory when the other team still stands at 24.
    pub fn check_cross_completion(&mut self) -> (won: Option<CrossWinner>)
        requires
            old(self)@.trump_team_crosses < u8::MAX,
            old(self)@.opponent_team_crosses < u8::MAX,
        ensures
            final(self)@ == old(self)@.after_check(),
            won == old(self)@.winner(),
    {
        if self.trump_team_score <= 0 {
            let double_victory = self.opponent_team_score == CROSS_START;
            self.trump_team_crosses += 1;
            self.cross_complete = true;
            return Some(
                CrossWinner {
                    winning_team: CrossTeam::TrumpTeam,
                    double_victory,
                    final_score: (self.trump_team_score, self.opponent_team_score),
                    crosses_won: self.trump_team_crosses,
                },
            );
        }
        if self.opponent_team_score <= 0 {
            let double_victory = self.trump_team_score == CROSS_START;
            self.opponent_team_crosses += 1;
            self.cross_complete = true;
            return Some(
                CrossWinner {
                    winning_team: CrossTeam::OpponentTeam,
                    double_victory,
                    final_score: (self.trump_team_score, self.opponent_team_score),
                    crosses_won: self.opponent_team_crosses,
                },
            );
        }
        None
    }

    /// Which teams are on the hook, at a count of exactly 6: trump team,
    /// opponents.
    pub fn get_hook_status(&self) -> (hooks: (bool, bool))
        ensures
            hooks.0 == (self@.trump_team_score == HOOK),
            hooks.1 == (self@.opponent_team_score == HOOK),
    {
        (self.trump_team_score == HOOK, self.opponent_team_score == HOOK)
    }

    /// The cross at a glance.
    pub fn get_summary(&self) -> (summary: CrossSummary)
        ensures
            summary.trump_team_score == self@.trump_team_score,
            summary.opponent_team_score == self@.opponent_team_score,
            summary.trump_team_crosses == self@.trump_team_crosses,
            summary.opponent_team_crosses == self@.opponent_team_crosses,
            summary.trump_team_on_hook == (self@.trump_team_score == HOOK),
            summary.opponent_team_on_hook == (self@.opponent_team_score == HOOK),
            summary.next_game_bonus == self@.next_game_bonus,
            summary.cross_complete == self@.cross_complete,
    {
        let (trump_on_hook, opponent_on_hook) = self.get_hook_status();
        CrossSummary {
            trump_team_score: self.trump_team_score,
            opponent_team_score: self.opponent_team_score,
            trump_team_crosses: self.trump_team_crosses,
            opponent_team_crosses: self.opponent_team_crosses,
            trump_team_on_hook: trump_on_hook,
            opponent_team_on_hook: opponent_on_hook,
            next_game_bonus: self.next_game_bonus,
            cross_complete: self.cross_complete,
        }
    }

    /// Whether another game may start: not once the cross is won. The
    /// counts stay as they are.
    pub fn start_new_game(&mut self) -> (res: Result<(), String>)
        ensures
            final(self)@ == old(self)@,
            res is Ok <==> !old(self)@.cross_complete,
            res matches Err(e) ==> e@ == "Cross is complete - cannot start new game"@,
    {
        if self.cross_complete {
            return Err(String::from_str("Cross is complete - cannot start new game"));
        }
        Ok(())
    }

    /// Puts the cross back to its start: both teams at 24, no crosses won.
    pub fn reset_for_new_cross(&mut self)
        ensures
            final(self)@ == CrossView::fresh(old(self)@.match_id),
    {
        self.trump_team_score = 24;
        self.opponent_team_score = 24;
        self.trump_team_crosses = 0;
        self.opponent_team_crosses = 0;
        self.next_game_bonus = 0;
        self.cross_complete = false;
    }
}

/// A team whose count comes down to exactly zero wins the cross in that
/// step.
pub proof fn lemma_reaching_zero_wins(cross: CrossView, game: GameResultView)
    requires
        cross.can_apply(game),
        !CrossView::is_tie(game),
        cross.trump_team_score == cross.trump_delta(game) || (cross.trump_team_score
            > cross.trump_delta(game) && cross.opponent_team_score == cross.opponent_delta(game)),
    ensures
        cross.after(game).cross_complete,
        cross.report(game).cross_won is Some,
        cross.trump_team_score == cross.trump_delta(game) ==> {
            &&& cross.report(game).cross_won->0.winning_team == CrossTeam::TrumpTeam
            &&& cross.after(game).trump_team_score == 0
            &&& cross.after(game).trump_team_crosses == cross.trump_team_crosses + 1
        },
        cross.trump_team_score > cross.trump_delta(game) ==> {
            &&& cross.report(game).cross_won->0.winning_team == CrossTeam::OpponentTeam
            &&& cross.after(game).opponent_team_score == 0
            &&& cross.after(game).opponent_team_crosses == cross.opponent_team_crosses + 1
        },
{
}

/// The side that lost counts down and the side that won stays: after a
/// game in which one side scored, the count of the other side is down by
/// that score and the bonus, and the count of the side that scored is
/// what it was.
pub proof fn lemma_losing_side_counts_down(cross: CrossView, game: GameResultView)
    requires
        cross.can_apply(game),
        !CrossView::is_tie(game),
        game.trump_team_score == 0 || game.opponent_team_score == 0,
    ensures
        game.trump_team_score > 0 ==> {
            &&& cross.after(game).opponent_team_score == cross.opponent_team_score
                - game.trump_team_score - cross.next_game_bonus
            &&& cross.after(game).trump_team_score == cross.trump_team_score
        },
        game.opponent_team_score > 0 ==> {
            &&& cross.after(game).trump_team_score == cross.trump_team_score
                - game.opponent_team_score - cross.next_game_bonus
            &&& cross.after(game).opponent_team_score == cross.opponent_team_score
        },
        cross.after(game).next_game_bonus == 0,
        cross.report(game).bonus_applied == cross.next_game_bonus,
{
}

/// A tie changes no count and makes the next game worth two more: the
/// game after a tie takes its score and those two off the count of the
/// side that lost it.
pub proof fn lemma_tie_carries_bonus(cross: CrossView, tie: GameResultView, next: GameResultView)
    requires
        CrossView::is_tie(tie),
        !CrossView::is_tie(next),
        next.trump_team_score == 0 || next.opponent_team_score == 0,
        cross.after(tie).can_apply(next),
    ensures
        cross.after(tie).trump_team_score == cross.trump_team_score,
        cross.after(tie).opponent_team_score == cross.opponent_team_score,
        cross.after(tie).next_game_bonus == 2,
        cross.after(tie).report(next).bonus_applied == 2,
        next.trump_team_score > 0 ==> {
            &&& cross.after(tie).after(next).opponent_team_score == cross.opponent_team_score
                - next.trump_team_score - 2
            &&& cross.after(tie).after(next).trump_team_score == cross.trump_team_score
        },
        next.opponent_team_score > 0 ==> {
            &&& cross.after(tie).after(next).trump_team_score == cross.trump_team_score
                - next.opponent_team_score - 2
            &&& cross.after(tie).after(next).opponent_team_score == cross.opponent_team_score
        },
        cross.after(tie).after(next).next_game_bonus == 0,
{
}

} // verus!
