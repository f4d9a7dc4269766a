//! The events that tell the players of a match what has happened.

use vstd::prelude::*;
use vstd::string::*;

verus! {

/// Events of the trick-taking phase.
#[derive(Debug)]
pub enum TrickEvent {
    /// A card was played to the trick in progress.
    CardPlayed {
        game_id: String,
        player_position: u8,
        card: String,
        trick_number: u8,
        cards_in_trick: u8,
        next_player: Option<u8>,
        trick_complete: bool,
        trick_winner: Option<u8>,
        points_won: u8,
    },
    /// A trick was completed.
    TrickCompleted {
        game_id: String,
        trick_number: u8,
        winner: u8,
        points: u8,
        trump_team_score: u8,
        opponent_team_score: u8,
        game_complete: bool,
    },
}

/// An event of the trick-taking phase as plain values.
pub enum TrickEventView {
    CardPlayed {
        game_id: Seq<char>,
        player_position: u8,
        card: Seq<char>,
        trick_number: u8,
        cards_in_trick: u8,
        next_player: Option<u8>,
        trick_complete: bool,
        trick_winner: Option<u8>,
        points_won: u8,
    },
    TrickCompleted {
        game_id: Seq<char>,
        trick_number: u8,
        winner: u8,
        points: u8,
        trump_team_score: u8,
        opponent_team_score: u8,
        game_complete: bool,
    },
}

impl View for TrickEvent {
    type V = TrickEventView;

    open spec fn view(&self) -> TrickEventView {
        match self {
            TrickEvent::CardPlayed {
                game_id,
                player_position,
                card,
                trick_number,
                cards_in_trick,
                next_player,
                trick_complete,
                trick_winner,
                points_won,
            } => TrickEventView::CardPlayed {
                game_id: game_id@,
                player_position: *player_position,
                card: card@,
                trick_number: *trick_number,
                cards_in_trick: *cards_in_trick,
                next_player: *next_player,
                trick_complete: *trick_complete,
                trick_winner: *trick_winner,
                points_won: *points_won,
            },
            TrickEvent::TrickCompleted {
                game_id,
                trick_number,
                winner,
                points,
                trump_team_score,
                opponent_team_score,
                game_complete,
            } => TrickEventView::TrickCompleted {
                game_id: game_id@,
                trick_number: *trick_number,
                winner: *winner,
                points: *points,
                trump_team_score: *trump_team_score,
                opponent_team_score: *opponent_team_score,
                game_complete: *game_complete,
            },
        }
    }
}

impl TrickEventView {
    /// The game that the event belongs to.
    pub open spec fn game_id(self) -> Seq<char> {
        match self {
            TrickEventView::CardPlayed { game_id, .. } => game_id,
            TrickEventView::TrickCompleted { game_id, .. } => game_id,
        }
    }

    /// The name of the event on the wire.
    pub open spec fn name(self) -> Seq<char> {
        match self {
            TrickEventView::CardPlayed { .. } => "card_played"@,
            TrickEventView::TrickCompleted { .. } => "trick_completed"@,
        }
    }
}

impl TrickEvent {
    /// The game that the event belongs to.
    pub fn game_id(&self) -> (id: &str)
        ensures
            id@ == self@.game_id(),
    {
        match self {
            TrickEvent::CardPlayed { game_id, .. } => game_id.as_str(),
            TrickEvent::TrickCompleted { game_id, .. } => game_id.as_str(),
        }
    }

    /// The name of the event on the wire.
    pub fn name(&self) -> (name: &'static str)
        ensures
            name@ == self@.name(),
    {
        match self {
            TrickEvent::CardPlayed { .. } => "card_played",
            TrickEvent::TrickCompleted { .. } => "trick_completed",
        }
    }
}

} // verus!
