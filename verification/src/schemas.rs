//! The bodies of requests and responses, and how responses are filled from
//! the state of a match.

use crate::cross::{CrossState, CrossView, HOOK};
use crate::errors::{CommandError, ErrorView};
use crate::hand::{bid_text, make_bid_text_for, BidOptionView};
use crate::normal_match::{
    opposite_seat, next_seat, opt_text, seat_across, seat_after, status_text, MatchView, NormalMatch,
};
use crate::players::{player_views, PlayerGameInfo, PlayerView, Roster};
use crate::scoring::{GameResult, GameResultView, ScoringView, SjavsResult, SjavsScoring};
use crate::text::str_eq;
use crate::trick::{GameTrickState, GameTrickView};
use vstd::hash_map::StringHashMap;
use vstd::prelude::*;
use vstd::string::*;

verus! {

/// A match as responses show it.
#[derive(Debug)]
pub struct MatchState {
    pub id: String,
    pub pin: u32,
    pub status: String,
    pub number_of_crosses: u32,
    pub current_cross: u32,
    pub created_timestamp: u64,
    pub host: String,
}

/// The answer to creating a match.
#[derive(Debug)]
pub struct CreateMatchResponse {
    pub message: String,
    pub game_id: String,
    pub game_pin: u32,
    pub state: MatchState,
}

/// The body of a request to join by pin.
#[derive(Debug)]
pub struct JoinMatchRequest {
    pub pin: u32,
}

/// The body of a request to join by the text of a pin.
#[derive(Debug)]
pub struct JoinRequest {
    pub pin_code: String,
}

/// A player as responses show them.
#[derive(Debug)]
pub struct PlayerInfo {
    pub user_id: String,
    pub role: String,
}

/// The answer to joining a match.
#[derive(Debug)]
pub struct JoinMatchResponse {
    pub message: String,
    pub game_id: String,
    pub state: MatchState,
    pub players: Vec<PlayerInfo>,
}

/// The answer to leaving a match.
#[derive(Debug)]
pub struct LeaveMatchResponse {
    pub message: String,
    pub game_deleted: bool,
    pub affected_players: Vec<String>,
}

/// The body of a refusal.
#[derive(Debug)]
pub struct ErrorResponse {
    pub error: String,
    pub message: Option<String>,
}

/// The answer of a maintenance command.
#[derive(Debug)]
pub struct DebugResponse {
    pub message: String,
}

/// What a client sends to subscribe to a match.
#[derive(Debug)]
pub struct JoinEventData {
    pub game_id: String,
}

/// What a client sends to ask another player to team up.
#[derive(Debug)]
pub struct TeamUpRequestData {
    pub target_player: String,
    pub game_id: String,
}

/// What a client sends to answer a request to team up.
#[derive(Debug)]
pub struct TeamUpResponseData {
    pub accepted: bool,
    pub requesting_player: String,
    pub game_id: String,
}

/// The state of a match as sent to a client that has just subscribed. The
/// state itself differs from phase to phase and travels as JSON text.
#[derive(Debug)]
pub struct InitialStateEventData {
    pub event_type: String,
    pub state_data: String,
    pub game_id: String,
    pub phase: String,
    pub timestamp: i64,
}

/// The state of a game that has started.
#[derive(Debug)]
pub struct GameStartState {
    pub id: String,
    pub status: String,
    pub dealer_position: u8,
    pub current_bidder: u8,
    pub trump_suit: Option<String>,
    pub trump_declarer: Option<u8>,
    pub players: Vec<PlayerInfo>,
}

/// The answer to starting a game.
#[derive(Debug)]
pub struct StartGameResponse {
    pub message: String,
    pub game_id: String,
    pub state: GameStartState,
    pub hands_dealt: bool,
    pub dealing_attempts: u32,
}

/// A bid that a player may make, as responses show it.
#[derive(Debug)]
pub struct BidOption {
    pub length: u8,
    pub suit: String,
    pub display_text: String,
    pub is_club_declaration: bool,
}

/// The answer to asking for one's hand.
pub struct PlayerHandResponse {
    pub message: String,
    pub game_id: String,
    pub player_position: u8,
    pub cards: Vec<String>,
    pub trump_counts: StringHashMap<u8>,
    pub available_bids: Vec<BidOption>,
    pub can_bid: bool,
}

/// The body of a bid.
#[derive(Debug)]
pub struct BidRequest {
    pub length: u8,
    pub suit: String,
}

/// A bid as responses show it.
#[derive(Debug)]
pub struct BidDetails {
    pub length: u8,
    pub suit: String,
    pub is_club_declaration: bool,
    pub display_text: String,
}

/// The state of a game in bidding.
#[derive(Debug)]
pub struct BiddingGameState {
    pub id: String,
    pub status: String,
    pub dealer_position: u8,
    pub current_bidder: u8,
    pub highest_bid_length: Option<u8>,
    pub highest_bidder: Option<u8>,
    pub trump_suit: Option<String>,
    pub trump_declarer: Option<u8>,
    pub players: Vec<PlayerInfo>,
}

/// The answer to a bid.
#[derive(Debug)]
pub struct BidResponse {
    pub message: String,
    pub game_id: String,
    pub bidder_position: u8,
    pub bid: BidDetails,
    pub game_state: BiddingGameState,
    pub bidding_complete: bool,
}

/// The answer to a pass.
#[derive(Debug)]
pub struct PassResponse {
    pub message: String,
    pub game_id: String,
    pub passer_position: u8,
    pub game_state: BiddingGameState,
    pub all_passed: bool,
    pub bidding_complete: bool,
}

/// The two teams by their seats.
#[derive(Debug)]
pub struct PartnershipInfo {
    pub trump_declarer: u8,
    pub partner: u8,
    pub opponents: Vec<u8>,
}

/// What is told when bidding is over.
#[derive(Debug)]
pub struct BiddingCompleteResponse {
    pub message: String,
    pub game_id: String,
    pub winning_bid: BidDetails,
    pub trump_declarer: u8,
    pub trump_suit: String,
    pub game_state: GameStartState,
    pub partnership: PartnershipInfo,
}

/// The body of a request to play a card.
#[derive(Debug)]
pub struct CardPlayRequest {
    pub card: String,
}

/// Where the tricks stand.
#[derive(Debug, Clone, Copy, PartialEq, Eq, Structural)]
pub struct GameTrickInfo {
    pub current_trick_number: u8,
    pub cards_played_in_trick: u8,
    pub current_player: Option<u8>,
    pub trick_complete: bool,
    pub trick_winner: Option<u8>,
    pub trump_team_tricks: u8,
    pub opponent_team_tricks: u8,
    pub trump_team_points: u8,
    pub opponent_team_points: u8,
    pub game_complete: bool,
}

/// The answer to playing a card.
#[derive(Debug)]
pub struct CardPlayResponse {
    pub message: String,
    pub game_id: String,
    pub card_played: String,
    pub player_position: u8,
    pub trick_info: GameTrickInfo,
}

/// The answer to asking for the trick.
#[derive(Debug)]
pub struct TrickSummaryResponse {
    pub game_id: String,
    pub game_info: GameTrickInfo,
}

/// The scoring of a complete game in full.
#[derive(Debug)]
pub struct GameScoringResult {
    pub trump_team_points: u8,
    pub opponent_team_points: u8,
    pub trump_team_tricks: u8,
    pub opponent_team_tricks: u8,
    pub trump_suit: String,
    pub result_type: String,
    pub description: String,
    pub trump_team_score: u8,
    pub opponent_team_score: u8,
    pub individual_vol: bool,
}

/// Where the cross stands.
#[derive(Debug, Clone, Copy, PartialEq, Eq, Structural)]
pub struct CrossScores {
    pub trump_team_remaining: i8,
    pub opponent_team_remaining: i8,
    pub trump_team_on_hook: bool,
    pub opponent_team_on_hook: bool,
    pub trump_team_crosses: u8,
    pub opponent_team_crosses: u8,
}

/// Who won the cross, as responses show it.
#[derive(Debug)]
pub struct CrossWinner {
    pub winning_team: String,
    pub double_victory: bool,
    pub winning_players: Vec<u8>,
}

/// The answer to completing a game.
#[derive(Debug)]
pub struct GameCompleteResponse {
    pub message: String,
    pub game_id: String,
    pub scoring: GameScoringResult,
    pub cross_scores: CrossScores,
    pub cross_won: Option<CrossWinner>,
    pub new_game_ready: bool,
}

/// The answer to asking for the score.
#[derive(Debug)]
pub struct GameScoreInfo {
    pub game_id: String,
    pub trick_info: GameTrickInfo,
    pub cross_scores: CrossScores,
}

/// The description of the programming interface.
#[derive(Debug)]
pub struct ApiDoc;

/// A seat as one byte, the way responses carry seats.
pub open spec fn seat_byte(seat: usize) -> u8 {
    (seat % 256) as u8
}

/// A seat that may be missing as one byte, 0 where it is missing.
pub open spec fn seat_byte_or_zero(seat: Option<usize>) -> u8 {
    match seat {
        Some(s) => seat_byte(s),
        None => 0,
    }
}

/// A seat that may be missing as a byte that may be missing.
pub open spec fn opt_seat_byte(seat: Option<usize>) -> Option<u8> {
    match seat {
        Some(s) => Some(seat_byte(s)),
        None => None,
    }
}

/// The name of a kind of result, as responses carry it.
pub open spec fn result_name(kind: SjavsResult) -> Seq<char> {
    match kind {
        SjavsResult::TrumpTeamWin => "TrumpTeamWin"@,
        SjavsResult::OpponentWin => "OpponentWin"@,
        SjavsResult::OpponentDoubleWin => "OpponentDoubleWin"@,
        SjavsResult::Vol => "Vol"@,
        SjavsResult::IndividualVol => "IndividualVol"@,
        SjavsResult::OpponentVol => "OpponentVol"@,
        SjavsResult::Tie => "Tie"@,
    }
}

/// Where the tricks stand, from the tally.
pub open spec fn trick_info_of(game: GameTrickView) -> GameTrickInfo {
    GameTrickInfo {
        current_trick_number: game.current_trick.trick_number,
        cards_played_in_trick: (game.current_trick.cards_played.len() % 256) as u8,
        current_player: if game.current_trick.is_complete {
            None
        } else {
            Some(seat_byte(game.current_trick.current_player))
        },
        trick_complete: game.current_trick.is_complete,
        trick_winner: opt_seat_byte(game.current_trick.trick_winner),
        trump_team_tricks: game.tricks_won.0,
        opponent_team_tricks: game.tricks_won.1,
        trump_team_points: game.points_accumulated.0,
        opponent_team_points: game.points_accumulated.1,
        game_complete: game.game_complete,
    }
}

/// Where the cross stands, from its state.
pub open spec fn cross_scores_of(cross: CrossView) -> CrossScores {
    CrossScores {
        trump_team_remaining: cross.trump_team_score,
        opponent_team_remaining: cross.opponent_team_score,
        trump_team_on_hook: cross.trump_team_score == HOOK,
        opponent_team_on_hook: cross.opponent_team_score == HOOK,
        trump_team_crosses: cross.trump_team_crosses,
        opponent_team_crosses: cross.opponent_team_crosses,
    }
}

/// The views of a list of players as responses show them.
pub open spec fn info_views(players: Seq<PlayerInfo>) -> Seq<PlayerView> {
    Seq::new(players.len(), |i: int| PlayerView { user_id: players[i].user_id@, role: players[i].role@ })
}

impl MatchState {
    /// The state shows the match with the user who hosts it.
    pub open spec fn shows(self, game: MatchView, host: Seq<char>) -> bool {
        &&& self.id@ == game.id
        &&& self.pin == game.pin
        &&& self.status@ == status_text(game.status)
        &&& self.number_of_crosses == game.number_of_crosses
        &&& self.current_cross == game.current_cross
        &&& self.created_timestamp == game.created_timestamp
        &&& self.host@ == host
    }
}

impl GameStartState {
    /// The state shows the match and its players; an unset dealer or
    /// bidder shows as seat 0.
    pub open spec fn shows(self, game: MatchView, players: Seq<PlayerView>) -> bool {
        &&& self.id@ == game.id
        &&& self.status@ == status_text(game.status)
        &&& self.dealer_position == seat_byte_or_zero(game.dealer_position)
        &&& self.current_bidder == seat_byte_or_zero(game.current_bidder)
        &&& opt_text(self.trump_suit) == game.trump_suit
        &&& self.trump_declarer == opt_seat_byte(game.trump_declarer)
        &&& info_views(self.players@) == players
    }
}

impl BiddingGameState {
    /// The state shows the match and its players; an unset dealer or
    /// bidder shows as seat 0.
    pub open spec fn shows(self, game: MatchView, players: Seq<PlayerView>) -> bool {
        &&& self.id@ == game.id
        &&& self.status@ == status_text(game.status)
        &&& self.dealer_position == seat_byte_or_zero(game.dealer_position)
        &&& self.current_bidder == seat_byte_or_zero(game.current_bidder)
        &&& self.highest_bid_length == game.highest_bid_length
        &&& self.highest_bidder == opt_seat_byte(game.highest_bidder)
        &&& opt_text(self.trump_suit) == game.trump_suit
        &&& self.trump_declarer == opt_seat_byte(game.trump_declarer)
        &&& info_views(self.players@) == players
    }
}

impl BidDetails {
    /// The details show a bid of a length in a suit that is given by name.
    pub open spec fn shows(self, length: u8, suit: Seq<char>) -> bool {
        &&& self.length == length
        &&& self.suit@ == suit
        &&& self.is_club_declaration == (suit == "clubs"@)
        &&& self.display_text@ == crate::hand::bid_text_for(length, suit)
    }
}

impl GameScoringResult {
    /// The scoring shows the tallies of a game and its result.
    pub open spec fn shows(self, scoring: ScoringView, result: GameResultView) -> bool {
        &&& self.trump_team_points == scoring.trump_team_points
        &&& self.opponent_team_points == scoring.opponent_team_points
        &&& self.trump_team_tricks == scoring.trump_team_tricks
        &&& self.opponent_team_tricks == scoring.opponent_team_tricks
        &&& self.trump_suit@ == scoring.trump_suit
        &&& self.result_type@ == result_name(result.result_type)
        &&& self.description@ == result.description
        &&& self.trump_team_score == result.trump_team_score
        &&& self.opponent_team_score == result.opponent_team_score
        &&& self.individual_vol == scoring.individual_vol
    }
}

/// A seat as one byte.
pub fn seat_to_byte(seat: usize) -> (b: u8)
    ensures
        b == seat_byte(seat),
{
    (seat % 256) as u8
}

/// A seat that may be missing as one byte, 0 where it is missing.
pub fn seat_or_zero(seat: Option<usize>) -> (b: u8)
    ensures
        b == seat_byte_or_zero(seat),
{
    match seat {
        Some(s) => seat_to_byte(s),
        None => 0,
    }
}

/// A seat that may be missing as a byte that may be missing.
pub fn seat_to_opt_byte(seat: Option<usize>) -> (b: Option<u8>)
    ensures
        b == opt_seat_byte(seat),
{
    match seat {
        Some(s) => Some(seat_to_byte(s)),
        None => None,
    }
}

/// A copy of a text that may be missing.
pub fn copy_opt_text(text: &Option<String>) -> (copy: Option<String>)
    ensures
        opt_text(copy) == opt_text(*text),
{
    match text {
        Some(s) => Some(s.clone()),
        None => None,
    }
}

impl SjavsResult {
    /// The name of the kind of result, as responses carry it.
    pub fn name(&self) -> (name: &'static str)
        ensures
            name@ == result_name(*self),
    {
        match self {
            SjavsResult::TrumpTeamWin => "TrumpTeamWin",
            SjavsResult::OpponentWin => "OpponentWin",
            SjavsResult::OpponentDoubleWin => "OpponentDoubleWin",
            SjavsResult::Vol => "Vol",
            SjavsResult::IndividualVol => "IndividualVol",
            SjavsResult::OpponentVol => "OpponentVol",
            SjavsResult::Tie => "Tie",
        }
    }
}

impl PlayerInfo {
    /// The players of a match as responses show them.
    pub fn list_of(roster: &Roster) -> (players: Vec<PlayerInfo>)
        ensures
            info_views(players@) == roster@,
    {
        let mut players: Vec<PlayerInfo> = Vec::new();
        let mut i: usize = 0;
        while i < roster.players.len()
            invariant
                i <= roster.players@.len(),
                players@.len() == i,
                forall|k: int|
                    0 <= k < i ==> (#[trigger] players@[k]).user_id@ == roster@[k].user_id
                        && players@[k].role@ == roster@[k].role,
            decreases roster.players@.len() - i,
        {
            players.push(
                PlayerInfo {
                    user_id: roster.players[i].user_id.clone(),
                    role: roster.players[i].role.clone(),
                },
            );
            i += 1;
        }
        assert(info_views(players@) =~= roster@);
        players
    }
}

impl MatchState {
    /// The match as responses show it, with the user who hosts it.
    pub fn of(game: &NormalMatch, host: String) -> (state: MatchState)
        ensures
            state.shows(game@, host@),
    {
        MatchState {
            id: game.id.clone(),
            pin: game.pin,
            status: game.status.to_string(),
            number_of_crosses: game.number_of_crosses,
            current_cross: game.current_cross,
            created_timestamp: game.created_timestamp,
            host,
        }
    }
}

impl GameStartState {
    /// The state of a game that has started, with its players.
    pub fn of(game: &NormalMatch, roster: &Roster) -> (state: GameStartState)
        ensures
            state.shows(game@, roster@),
    {
        GameStartState {
            id: game.id.clone(),
            status: game.status.to_string(),
            dealer_position: seat_or_zero(game.dealer_position),
            current_bidder: seat_or_zero(game.current_bidder),
            trump_suit: copy_opt_text(&game.trump_suit),
            trump_declarer: seat_to_opt_byte(game.trump_declarer),
            players: PlayerInfo::list_of(roster),
        }
    }
}

impl BiddingGameState {
    /// The state of a game in bidding, with its players.
    pub fn of(game: &NormalMatch, roster: &Roster) -> (state: BiddingGameState)
        ensures
            state.shows(game@, roster@),
    {
        BiddingGameState {
            id: game.id.clone(),
            status: game.status.to_string(),
            dealer_position: seat_or_zero(game.dealer_position),
            current_bidder: seat_or_zero(game.current_bidder),
            highest_bid_length: game.highest_bid_length,
            highest_bidder: seat_to_opt_byte(game.highest_bidder),
            trump_suit: copy_opt_text(&game.trump_suit),
            trump_declarer: seat_to_opt_byte(game.trump_declarer),
            players: PlayerInfo::list_of(roster),
        }
    }
}

impl BidDetails {
    /// A bid as responses show it: the suit by its name as given, and
    /// whether it is in clubs.
    pub fn of(length: u8, suit: &str) -> (bid: BidDetails)
        ensures
            bid.shows(length, suit@),
    {
        BidDetails {
            length,
            suit: String::from_str(suit),
            is_club_declaration: str_eq(suit, "clubs"),
            display_text: make_bid_text_for(length, suit),
        }
    }
}

impl PartnershipInfo {
    /// The two teams: the declarer and the partner, against the two other
    /// seats in the order of the table.
    pub fn of(trump_declarer: usize, partner: usize) -> (info: PartnershipInfo)
        requires
            trump_declarer < 4,
            partner < 4,
            partner != trump_declarer,
        ensures
            info.trump_declarer == trump_declarer,
            info.partner == partner,
            info.opponents@.len() == 2,
            forall|seat: u8|
                seat < 4 ==> (info.opponents@.contains(seat) <==> seat != trump_declarer && seat
                    != partner),
            info.opponents@[0] < info.opponents@[1],
    {
        let mut opponents: Vec<u8> = Vec::new();
        let mut seat: u8 = 0;
        while seat < 4
            invariant
                seat <= 4,
                trump_declarer < 4,
                partner < 4,
                partner != trump_declarer,
                opponents@.len() <= seat,
                forall|s: u8|
                    s < seat ==> (opponents@.contains(s) <==> s != trump_declarer && s != partner),
                forall|i: int| 0 <= i < opponents@.len() ==> opponents@[i] < seat,
                forall|i: int, j: int|
                    0 <= i < j < opponents@.len() ==> opponents@[i] < opponents@[j],
                opponents@.len() == seat - (if trump_declarer < seat {
                    1int
                } else {
                    0int
                }) - (if partner < seat {
                    1int
                } else {
                    0int
                }),
            decreases 4 - seat,
        {
            let ghost before = opponents@;
            if seat as usize != trump_declarer && seat as usize != partner {
                opponents.push(seat);
                assert(opponents@[before.len() as int] == seat);
            }
            assert forall|s: u8| s < seat + 1 implies (opponents@.contains(s) <==> s
                != trump_declarer && s != partner) by {
                if before.contains(s) {
                    let i = choose|i: int| 0 <= i < before.len() && before[i] == s;
                    assert(opponents@[i] == s);
                }
                if opponents@.contains(s) && s < seat {
                    let i = choose|i: int| 0 <= i < opponents@.len() && opponents@[i] == s;
                    assert(before[i] == s);
                }
            }
            seat += 1;
        }
        PartnershipInfo {
            trump_declarer: trump_declarer as u8,
            partner: partner as u8,
            opponents,
        }
    }
}

impl GameTrickInfo {
    /// Where the tricks stand.
    pub fn of(game: &GameTrickState) -> (info: GameTrickInfo)
        ensures
            info == trick_info_of(game@),
    {
        GameTrickInfo {
            current_trick_number: game.current_trick.trick_number,
            cards_played_in_trick: (game.current_trick.cards_played.len() % 256) as u8,
            current_player: if game.current_trick.is_complete {
                None
            } else {
                Some(seat_to_byte(game.current_trick.current_player))
            },
            trick_complete: game.current_trick.is_complete,
            trick_winner: seat_to_opt_byte(game.current_trick.trick_winner),
            trump_team_tricks: game.tricks_won.0,
            opponent_team_tricks: game.tricks_won.1,
            trump_team_points: game.points_accumulated.0,
            opponent_team_points: game.points_accumulated.1,
            game_complete: game.game_complete,
        }
    }
}

impl CrossScores {
    /// Where the cross stands.
    pub fn of(cross: &CrossState) -> (scores: CrossScores)
        ensures
            scores == cross_scores_of(cross@),
    {
        CrossScores {
            trump_team_remaining: cross.trump_team_score,
            opponent_team_remaining: cross.opponent_team_score,
            trump_team_on_hook: cross.trump_team_score == HOOK,
            opponent_team_on_hook: cross.opponent_team_score == HOOK,
            trump_team_crosses: cross.trump_team_crosses,
            opponent_team_crosses: cross.opponent_team_crosses,
        }
    }

    /// Where a cross stands that has not begun: both teams at 24.
    pub fn fresh() -> (scores: CrossScores)
        ensures
            scores == cross_scores_of(CrossView::fresh(Seq::empty())),
    {
        CrossScores {
            trump_team_remaining: 24,
            opponent_team_remaining: 24,
            trump_team_on_hook: false,
            opponent_team_on_hook: false,
            trump_team_crosses: 0,
            opponent_team_crosses: 0,
        }
    }
}

impl GameScoringResult {
    /// The scoring of a game in full: its tallies and its result.
    pub fn of(scoring: &SjavsScoring, result: &GameResult) -> (full: GameScoringResult)
        ensures
            full.shows(scoring@, result@),
    {
        GameScoringResult {
            trump_team_points: scoring.trump_team_points,
            opponent_team_points: scoring.opponent_team_points,
            trump_team_tricks: scoring.trump_team_tricks,
            opponent_team_tricks: scoring.opponent_team_tricks,
            trump_suit: scoring.trump_suit.clone(),
            result_type: String::from_str(result.result_type.name()),
            description: result.description.clone(),
            trump_team_score: result.trump_team_score,
            opponent_team_score: result.opponent_team_score,
            individual_vol: scoring.individual_vol,
        }
    }
}

/// The name of a side of a game, as responses carry it.
pub open spec fn team_name(team: crate::cross::CrossTeam) -> Seq<char> {
    match team {
        crate::cross::CrossTeam::TrumpTeam => "trump_team"@,
        crate::cross::CrossTeam::OpponentTeam => "opponent_team"@,
    }
}

impl CrossWinner {
    /// Who won the cross, as responses show it: the side by its name, and
    /// the seats of its players. The seats are left out where the trump
    /// team is not two different seats at the table.
    pub fn of(winner: &crate::cross::CrossWinner, trump_team: (usize, usize)) -> (shown: CrossWinner)
        ensures
            shown.winning_team@ == team_name(winner.winning_team),
            shown.double_victory == winner.double_victory,
            trump_team.0 < 4 && trump_team.1 < 4 && trump_team.0 != trump_team.1 ==> {
                &&& shown.winning_players@.len() == 2
                &&& forall|seat: u8|
                    seat < 4 ==> (shown.winning_players@.contains(seat) <==> ((seat == trump_team.0
                        || seat == trump_team.1) <==> winner.winning_team
                        == crate::cross::CrossTeam::TrumpTeam))
            },
            !(trump_team.0 < 4 && trump_team.1 < 4 && trump_team.0 != trump_team.1)
                ==> shown.winning_players@.len() == 0,
    {
        let trump_wins = matches!(winner.winning_team, crate::cross::CrossTeam::TrumpTeam);
        let mut players: Vec<u8> = Vec::new();
        if trump_team.0 < 4 && trump_team.1 < 4 && trump_team.0 != trump_team.1 {
            let teams = PartnershipInfo::of(trump_team.0, trump_team.1);
            if trump_wins {
                players.push(teams.trump_declarer);
                players.push(teams.partner);
                assert forall|seat: u8| seat < 4 implies (players@.contains(seat) <==> (seat
                    == trump_team.0 || seat == trump_team.1)) by {
                    assert(players@[0] == trump_team.0);
                    assert(players@[1] == trump_team.1);
                    if players@.contains(seat) {
                        let i = choose|i: int| 0 <= i < players@.len() && players@[i] == seat;
                        assert(i == 0 || i == 1);
                    }
                }
            } else {
                players = teams.opponents;
            }
        }
        CrossWinner {
            winning_team: String::from_str(
                if trump_wins {
                    "trump_team"
                } else {
                    "opponent_team"
                },
            ),
            double_victory: winner.double_victory,
            winning_players: players,
        }
    }
}

impl ErrorResponse {
    /// The body that tells a caller of a refusal.
    pub fn of(error: &CommandError) -> (body: ErrorResponse)
        ensures
            body.error@ == error@.error,
            opt_text(body.message) == error@.message,
    {
        ErrorResponse { error: error.error.clone(), message: copy_opt_text(&error.message) }
    }
}

impl BidOption {
    /// A bid option as responses show it.
    pub fn of(option: &crate::hand::BidOption) -> (shown: BidOption)
        ensures
            shown.length == option@.length,
            shown.suit@ == option@.suit,
            shown.display_text@ == option@.display_text,
            shown.is_club_declaration == option@.is_club_declaration,
    {
        BidOption {
            length: option.length,
            suit: option.suit.clone(),
            display_text: option.display_text.clone(),
            is_club_declaration: option.is_club_declaration,
        }
    }
}

} // verus!
