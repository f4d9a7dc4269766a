//! Scoring of a complete game.

use crate::text::{decimal, format_u64, str_eq};
use vstd::prelude::*;
use vstd::string::*;

verus! {

/// The tallies of a complete game, from which its result follows.
#[derive(Debug, Clone)]
pub struct SjavsScoring {
    /// Card points won by the trump team.
    pub trump_team_points: u8,
    /// Card points won by the opponents.
    pub opponent_team_points: u8,
    /// Tricks won by the trump team.
    pub trump_team_tricks: u8,
    /// Tricks won by the opponents.
    pub opponent_team_tricks: u8,
    /// Wire name of the trump suit.
    pub trump_suit: String,
    /// Whether one seat of the trump team took all the tricks.
    pub individual_vol: bool,
}

/// The kinds of result that a game can have.
#[derive(Debug, Clone, Copy, PartialEq, Eq, Structural)]
pub enum SjavsResult {
    /// The trump team won with 61 to 120 card points.
    TrumpTeamWin,
    /// The trump team lost with 31 to 59 card points.
    OpponentWin,
    /// The trump team lost with 30 card points or fewer.
    OpponentDoubleWin,
    /// The trump team took all the tricks.
    Vol,
    /// One seat of the trump team took all the tricks.
    IndividualVol,
    /// The opponents took all the tricks.
    OpponentVol,
    /// Both teams reached 60 card points.
    Tie,
}

/// The result of a complete game.
#[derive(Debug, Clone)]
pub struct GameResult {
    /// Score of the trump team.
    pub trump_team_score: u8,
    /// Score of the opponents.
    pub opponent_team_score: u8,
    /// The kind of result.
    pub result_type: SjavsResult,
    /// The result in words.
    pub description: String,
}

/// The tallies of a game as plain values.
pub struct ScoringView {
    pub trump_team_points: u8,
    pub opponent_team_points: u8,
    pub trump_team_tricks: u8,
    pub opponent_team_tricks: u8,
    pub trump_suit: Seq<char>,
    pub individual_vol: bool,
}

/// The result of a game as plain values.
pub struct GameResultView {
    pub trump_team_score: u8,
    pub opponent_team_score: u8,
    pub result_type: SjavsResult,
    pub description: Seq<char>,
}

impl View for SjavsScoring {
    type V = ScoringView;

    open spec fn view(&self) -> ScoringView {
        ScoringView {
            trump_team_points: self.trump_team_points,
            opponent_team_points: self.opponent_team_points,
            trump_team_tricks: self.trump_team_tricks,
            opponent_team_tricks: self.opponent_team_tricks,
            trump_suit: self.trump_suit@,
            individual_vol: self.individual_vol,
        }
    }
}

impl View for GameResult {
    type V = GameResultView;

    open spec fn view(&self) -> GameResultView {
        GameResultView {
            trump_team_score: self.trump_team_score,
            opponent_team_score: self.opponent_team_score,
            result_type: self.result_type,
            description: self.description@,
        }
    }
}

/// A text with a number in it.
pub open spec fn numbered(before: Seq<char>, n: u8, after: Seq<char>) -> Seq<char> {
    before + decimal(n as nat) + after
}

impl ScoringView {
    /// Clubs as trump doubles most scores.
    pub open spec fn is_clubs(self) -> bool {
        self.trump_suit == "clubs"@
    }

    /// The two teams share the 120 card points of the deck.
    pub open spec fn points_add_up(self) -> bool {
        self.trump_team_points + self.opponent_team_points == 120
    }

    /// The kind of result: all tricks to the trump team is a vol, by one
    /// seat an individual vol; all tricks to the opponents their vol; 60
    /// card points each a tie; else the card points of the trump team
    /// decide: 61 and more win, 31 to 59 lose, 30 and fewer lose double.
    pub open spec fn result_type(self) -> SjavsResult {
        if self.trump_team_tricks == 8 {
            if self.individual_vol {
                SjavsResult::IndividualVol
            } else {
                SjavsResult::Vol
            }
        } else if self.opponent_team_tricks == 8 {
            SjavsResult::OpponentVol
        } else if self.trump_team_points == 60 && self.opponent_team_points == 60 {
            SjavsResult::Tie
        } else if self.trump_team_points >= 61 {
            SjavsResult::TrumpTeamWin
        } else if self.trump_team_points >= 31 {
            SjavsResult::OpponentWin
        } else {
            SjavsResult::OpponentDoubleWin
        }
    }

    /// What the winning side scores: an individual vol 24 in clubs and 16
    /// otherwise; a vol 16 and 12; the opponents' vol always 16; a win with
    /// 90 card points or more 8 and 4, a narrower win 4 and 2; a loss of
    /// the trump team 8 and 4, a double loss 16 and 8; a tie nothing.
    pub open spec fn winning_score(self) -> u8 {
        let clubs = self.is_clubs();
        match self.result_type() {
            SjavsResult::IndividualVol => if clubs {
                24
            } else {
                16
            },
            SjavsResult::Vol => if clubs {
                16
            } else {
                12
            },
            SjavsResult::OpponentVol => 16,
            SjavsResult::Tie => 0,
            SjavsResult::TrumpTeamWin => if self.trump_team_points >= 90 {
                if clubs {
                    8
                } else {
                    4
                }
            } else {
                if clubs {
                    4
                } else {
                    2
                }
            },
            SjavsResult::OpponentWin => if clubs {
                8
            } else {
                4
            },
            SjavsResult::OpponentDoubleWin => if clubs {
                16
            } else {
                8
            },
        }
    }

    /// Whether the score goes to the trump team.
    pub open spec fn trump_team_scores(self) -> bool {
        match self.result_type() {
            SjavsResult::IndividualVol | SjavsResult::Vol | SjavsResult::TrumpTeamWin => true,
            _ => false,
        }
    }

    /// The result in words.
    pub open spec fn description(self) -> Seq<char> {
        let n = self.winning_score();
        match self.result_type() {
            SjavsResult::IndividualVol => numbered(
                "Individual Vol - "@,
                n,
                " points for trump team"@,
            ),
            SjavsResult::Vol => numbered("Vol - "@, n, " points for trump team"@),
            SjavsResult::OpponentVol => "Opponents won all tricks - 16 points"@,
            SjavsResult::Tie => "Tie at 60-60 - no score, next game worth 2 extra points"@,
            SjavsResult::TrumpTeamWin => if self.trump_team_points >= 90 {
                numbered("Trump team 90-120 points - "@, n, " points"@)
            } else {
                numbered("Trump team 61-89 points - "@, n, " points"@)
            },
            SjavsResult::OpponentWin => numbered(
                "Trump team 31-59 points (avoided double) - opponents get "@,
                n,
                " points"@,
            ),
            SjavsResult::OpponentDoubleWin => if self.trump_team_points >= 1 {
                numbered("Trump team 0-30 points (double loss) - opponents get "@, n, " points"@)
            } else {
                numbered("Trump team 0 points - opponents get "@, n, " points"@)
            },
        }
    }

    /// The result of the game.
    pub open spec fn game_result(self) -> GameResultView {
        GameResultView {
            trump_team_score: if self.trump_team_scores() {
                self.winning_score()
            } else {
                0
            },
            opponent_team_score: if self.trump_team_scores() {
                0
            } else {
                self.winning_score()
            },
            result_type: self.result_type(),
            description: self.description(),
        }
    }
}

/// Builds a text with a number in it.
fn numbered_text(before: &str, n: u8, after: &str) -> (s: String)
    ensures
        s@ == numbered(before@, n, after@),
{
    let mut s = String::from_str(before);
    let digits = format_u64(n as u64);
    s.append(digits.as_str());
    s.append(after);
    s
}

impl SjavsScoring {
    /// The result of the game by the scoring table. The card points of the
    /// two teams have to add up to the 120 of the deck.
    pub fn calculate_game_result(&self) -> (result: GameResult)
        requires
            self@.points_add_up(),
        ensures
            result@ == self@.game_result(),
    {
        let is_clubs = str_eq(self.trump_suit.as_str(), "clubs");
        if self.trump_team_tricks == 8 {
            if self.individual_vol {
                let n: u8 = if is_clubs {
                    24
                } else {
                    16
                };
                GameResult {
                    trump_team_score: n,
                    opponent_team_score: 0,
                    result_type: SjavsResult::IndividualVol,
                    description: numbered_text("Individual Vol - ", n, " points for trump team"),
                }
            } else {
                let n: u8 = if is_clubs {
                    16
                } else {
                    12
                };
                GameResult {
                    trump_team_score: n,
                    opponent_team_score: 0,
                    result_type: SjavsResult::Vol,
                    description: numbered_text("Vol - ", n, " points for trump team"),
                }
            }
        } else if self.opponent_team_tricks == 8 {
            GameResult {
                trump_team_score: 0,
                opponent_team_score: 16,
                result_type: SjavsResult::OpponentVol,
                description: String::from_str("Opponents won all tricks - 16 points"),
            }
        } else if self.trump_team_points == 60 && self.opponent_team_points == 60 {
            GameResult {
                trump_team_score: 0,
                opponent_team_score: 0,
                result_type: SjavsResult::Tie,
                description: String::from_str(
                    "Tie at 60-60 - no score, next game worth 2 extra points",
                ),
            }
        } else if self.trump_team_points >= 90 {
            let n: u8 = if is_clubs {
                8
            } else {
                4
            };
            GameResult {
                trump_team_score: n,
                opponent_team_score: 0,
                result_type: SjavsResult::TrumpTeamWin,
                description: numbered_text("Trump team 90-120 points - ", n, " points"),
            }
        } else if self.trump_team_points >= 61 {
            let n: u8 = if is_clubs {
                4
            } else {
                2
            };
            GameResult {
                trump_team_score: n,
                opponent_team_score: 0,
                result_type: SjavsResult::TrumpTeamWin,
                description: numbered_text("Trump team 61-89 points - ", n, " points"),
            }
        } else if self.trump_team_points >= 31 {
            let n: u8 = if is_clubs {
                8
            } else {
                4
            };
            GameResult {
                trump_team_score: 0,
                opponent_team_score: n,
                result_type: SjavsResult::OpponentWin,
                description: numbered_text(
                    "Trump team 31-59 points (avoided double) - opponents get ",
                    n,
                    " points",
                ),
            }
        } else {
            let n: u8 = if is_clubs {
                16
            } else {
                8
            };
            GameResult {
                trump_team_score: 0,
                opponent_team_score: n,
                result_type: SjavsResult::OpponentDoubleWin,
                description: if self.trump_team_points >= 1 {
                    numbered_text(
                        "Trump team 0-30 points (double loss) - opponents get ",
                        n,
                        " points",
                    )
                } else {
                    numbered_text("Trump team 0 points - opponents get ", n, " points")
                },
            }
        }
    }

    /// Whether the trump team lost but kept above 30 card points, which
    /// spares it the double loss.
    pub fn is_avoiding_double_loss(&self) -> (avoiding: bool)
        ensures
            avoiding == (31 <= self@.trump_team_points <= 59),
    {
        self.trump_team_points >= 31 && self.trump_team_points <= 59
    }

    /// Whether the card points of the two teams add up to the 120 of the
    /// deck.
    pub fn validate_total_points(&self) -> (valid: bool)
        ensures
            valid == self@.points_add_up(),
    {
        self.trump_team_points as u16 + self.opponent_team_points as u16 == 120
    }
}

/// Every game scores for one side at most, and never more than 24.
pub proof fn lemma_scores_one_side(scoring: ScoringView)
    ensures
        scoring.game_result().trump_team_score == 0 || scoring.game_result().opponent_team_score
            == 0,
        scoring.game_result().trump_team_score <= 24,
        scoring.game_result().opponent_team_score <= 24,
        scoring.game_result().result_type == SjavsResult::Tie <==> scoring.game_result().trump_team_score
            == 0 && scoring.game_result().opponent_team_score == 0,
{
}

} // verus!
