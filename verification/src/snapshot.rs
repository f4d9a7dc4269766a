//! Snapshots for late joiners: what a client is sent when it subscribes
//! to a match, so that it can show the match without having seen what
//! went before. Each phase has its own snapshot.

use crate::card::{card_code, Card, Suit};
use crate::cross::{CrossState, CrossView};
use crate::hand::{available_bids, playable_cards, trump_count_map, BidOptionView, Hand};
use crate::normal_match::{
    next_seat, opposite_seat, opt_text, seat_across, seat_after, status_text, MatchView, NormalMatch,
    NormalMatchStatus,
};
use crate::players::{is_host, text_views, PlayerView, Roster};
use crate::schemas::{
    copy_opt_text, opt_seat_byte, seat_byte, seat_byte_or_zero, seat_or_zero, seat_to_byte,
    seat_to_opt_byte,
};
use crate::text::str_eq;
use crate::trick::{GameTrickState, GameTrickView};
use vstd::hash_map::StringHashMap;
use vstd::prelude::*;
use vstd::string::*;

verus! {

/// The name shown for a user whose name is not known.
pub open spec fn unknown_player() -> Seq<char> {
    "Unknown Player"@
}

/// The record of the match in a snapshot.
#[derive(Debug)]
pub struct MatchInfo {
    pub id: String,
    pub pin: u32,
    pub status: String,
    pub number_of_crosses: u32,
    pub current_cross: u32,
    pub created_timestamp: u64,
    pub host: String,
}

/// A player in a snapshot.
#[derive(Debug)]
pub struct PlayerInfo {
    pub user_id: String,
    pub username: String,
    pub position: Option<u8>,
    pub role: String,
}

/// What every snapshot holds.
#[derive(Debug)]
pub struct CommonStateData {
    pub game_id: String,
    pub match_info: MatchInfo,
    pub players: Vec<PlayerInfo>,
    pub timestamp: i64,
}

/// The snapshot of a match that waits for players.
#[derive(Debug)]
pub struct WaitingStateData {
    pub common: CommonStateData,
    pub can_start_game: bool,
    pub players_needed: u8,
    pub is_host: bool,
}

/// The snapshot of a match in which cards are dealt.
#[derive(Debug)]
pub struct DealingStateData {
    pub common: CommonStateData,
    pub dealer_position: u8,
    /// `starting`, `dealing` or `complete`.
    pub dealing_progress: String,
}

/// The hand of the user who asked.
pub struct PlayerHand {
    pub cards: Vec<String>,
    pub trump_counts: StringHashMap<u8>,
    pub position: u8,
}

/// A bid that the user may make.
#[derive(Debug)]
pub struct BidOption {
    pub length: u8,
    pub suit: String,
    pub display_text: String,
    pub is_club_declaration: bool,
}

/// The highest bid so far.
#[derive(Debug)]
pub struct BidInfo {
    pub length: u8,
    pub suit: String,
    pub bidder: u8,
    pub bidder_username: String,
    pub is_club_declaration: bool,
}

/// One step of the bidding.
#[derive(Debug)]
pub struct BidHistoryEntry {
    pub player: u8,
    pub username: String,
    /// `bid` or `pass`.
    pub action: String,
    pub bid_info: Option<BidInfo>,
    pub timestamp: i64,
}

/// The snapshot of a match in bidding.
pub struct BiddingStateData {
    pub common: CommonStateData,
    pub dealer_position: u8,
    pub current_bidder: u8,
    pub player_hand: Option<PlayerHand>,
    pub available_bids: Vec<BidOption>,
    pub highest_bid: Option<BidInfo>,
    pub bidding_history: Vec<BidHistoryEntry>,
    pub can_bid: bool,
    pub can_pass: bool,
}

/// The two teams of a game.
#[derive(Debug)]
pub struct Partnership {
    pub trump_team: Vec<PlayerInfo>,
    pub opponent_team: Vec<PlayerInfo>,
}

/// Trump and the teams.
#[derive(Debug)]
pub struct TrumpInfo {
    pub trump_suit: String,
    pub trump_declarer: u8,
    pub trump_declarer_username: String,
    pub partnership: Partnership,
}

/// A card that lies in the trick.
#[derive(Debug)]
pub struct CardPlay {
    pub player: u8,
    pub username: String,
    pub card: String,
    pub timestamp: i64,
}

/// The trick in progress as a snapshot shows it.
#[derive(Debug)]
pub struct TrickState {
    pub trick_number: u8,
    pub cards_played: Vec<CardPlay>,
    pub current_player: Option<u8>,
    pub leader: u8,
    pub is_complete: bool,
    pub winner: Option<u8>,
}

/// The tally of a game.
#[derive(Debug, Clone, Copy, PartialEq, Eq, Structural)]
pub struct ScoreState {
    pub trump_team_tricks: u8,
    pub opponent_team_tricks: u8,
    pub trump_team_points: u8,
    pub opponent_team_points: u8,
    pub tricks_remaining: u8,
}

/// Whose turn it is.
#[derive(Debug)]
pub struct TurnInfo {
    pub current_player: u8,
    pub current_player_username: String,
    pub is_your_turn: bool,
}

/// The snapshot of a match in play.
pub struct PlayingStateData {
    pub common: CommonStateData,
    pub trump_info: TrumpInfo,
    pub player_hand: Option<PlayerHand>,
    pub legal_cards: Vec<String>,
    pub current_trick: TrickState,
    pub score_state: ScoreState,
    pub turn_info: TurnInfo,
}

/// The result of a game as a snapshot shows it.
#[derive(Debug)]
pub struct GameResult {
    pub result_type: String,
    pub description: String,
    pub trump_team_score: u8,
    pub opponent_team_score: u8,
    pub individual_vol: bool,
}

/// The counts of the cross as a snapshot shows them.
#[derive(Debug, Clone, Copy, PartialEq, Eq, Structural)]
pub struct CrossScores {
    pub trump_team_remaining: i8,
    pub opponent_team_remaining: i8,
    pub trump_team_crosses: u8,
    pub opponent_team_crosses: u8,
}

/// Who won the game.
#[derive(Debug)]
pub struct WinnerInfo {
    pub winning_team: String,
    pub winning_players: Vec<PlayerInfo>,
    pub double_victory: bool,
}

/// The snapshot of a match whose game is over.
#[derive(Debug)]
pub struct CompletedStateData {
    pub common: CommonStateData,
    pub final_scores: GameResult,
    pub cross_scores: CrossScores,
    pub winner_info: Option<WinnerInfo>,
    pub can_start_new_game: bool,
}

/// The snapshot of a match, by its phase.
pub enum InitialStateEvent {
    Waiting(WaitingStateData),
    Dealing(DealingStateData),
    Bidding(BiddingStateData),
    Playing(PlayingStateData),
    Completed(CompletedStateData),
}

/// The display names of users.
#[derive(Debug)]
pub struct Directory {
    /// Pairs of user and name.
    pub names: Vec<(String, String)>,
}

/// The name of a user by the list of names: the first entry for the user,
/// or the name for the unknown where there is none.
pub open spec fn name_of(names: Seq<(String, String)>, user: Seq<char>) -> Seq<char>
    decreases names.len(),
{
    if names.len() == 0 {
        unknown_player()
    } else if names[0].0@ == user {
        names[0].1@
    } else {
        name_of(names.drop_first(), user)
    }
}

/// The name of the user at a seat, or the name for the unknown where the
/// seat is empty.
pub open spec fn name_at(names: Seq<(String, String)>, players: Seq<PlayerView>, seat: int) -> Seq<
    char,
> {
    if 0 <= seat < players.len() {
        name_of(names, players[seat].user_id)
    } else {
        unknown_player()
    }
}

/// The name of the event and of the phase for a snapshot of a match in
/// the given phase; a match that was called off has no snapshot.
pub open spec fn snapshot_names(status: NormalMatchStatus) -> Option<(Seq<char>, Seq<char>)> {
    match status {
        NormalMatchStatus::Waiting => Some(("initial_state_waiting"@, "waiting"@)),
        NormalMatchStatus::Dealing => Some(("initial_state_dealing"@, "dealing"@)),
        NormalMatchStatus::Bidding => Some(("initial_state_bidding"@, "bidding"@)),
        NormalMatchStatus::Playing => Some(("initial_state_playing"@, "playing"@)),
        NormalMatchStatus::Completed => Some(("initial_state_completed"@, "completed"@)),
        NormalMatchStatus::Cancelled => None,
    }
}

/// How far dealing has come, by the hands that the store holds: not
/// started without the first hand, complete with all four, else under
/// way.
pub open spec fn dealing_progress(hands_present: Seq<bool>) -> Seq<char> {
    if !hands_present[0] {
        "starting"@
    } else if hands_present[1] && hands_present[2] && hands_present[3] {
        "complete"@
    } else {
        "dealing"@
    }
}

/// How many players a match still needs.
pub open spec fn players_needed(count: nat) -> u8 {
    if count >= 4 {
        0
    } else {
        (4 - count) as u8
    }
}

/// How many tricks are still to play.
pub open spec fn tricks_remaining(game: GameTrickView) -> u8 {
    if game.tricks_won.0 + game.tricks_won.1 >= 8 {
        0
    } else {
        (8 - (game.tricks_won.0 + game.tricks_won.1)) as u8
    }
}

/// The codes of a list of cards.
pub open spec fn codes_of(cards: Seq<Card>) -> Seq<Seq<char>> {
    Seq::new(cards.len(), |i: int| card_code(cards[i]))
}

/// The cards that the user may play now: none unless the user is on
/// turn.
pub open spec fn legal_codes(cards: Seq<Card>, game: GameTrickView, seat: usize) -> Seq<Seq<char>> {
    if !game.current_trick.is_complete && game.current_trick.current_player == seat {
        codes_of(playable_cards(cards, game.current_trick.lead_suit))
    } else {
        Seq::empty()
    }
}

/// The seats of the trump team that are taken: the declarer, then the
/// partner.
pub open spec fn team_seats(team: (usize, usize), taken: nat) -> Seq<int> {
    (if team.0 < taken {
        seq![team.0 as int]
    } else {
        Seq::<int>::empty()
    }) + (if team.1 < taken && team.1 != team.0 {
        seq![team.1 as int]
    } else {
        Seq::<int>::empty()
    })
}

/// The seats below `limit` that are taken and are not of the trump team,
/// in the order of the table.
pub open spec fn other_seats(team: (usize, usize), taken: nat, limit: int) -> Seq<int>
    decreases limit,
{
    if limit <= 0 {
        Seq::<int>::empty()
    } else if limit - 1 != team.0 && limit - 1 != team.1 && limit - 1 < taken {
        other_seats(team, taken, limit - 1).push(limit - 1)
    } else {
        other_seats(team, taken, limit - 1)
    }
}

impl PlayerInfo {
    /// The entry shows the player at a seat, with name and role.
    pub open spec fn shows(self, players: Seq<PlayerView>, names: Seq<(String, String)>, seat: int) -> bool {
        &&& self.user_id@ == players[seat].user_id
        &&& self.role@ == players[seat].role
        &&& self.username@ == name_of(names, players[seat].user_id)
        &&& self.position == Some(seat_byte(seat as usize))
    }
}

/// The entries show the players at the given seats, in that order.
pub open spec fn show_seats(
    list: Seq<PlayerInfo>,
    players: Seq<PlayerView>,
    names: Seq<(String, String)>,
    seats: Seq<int>,
) -> bool {
    list.len() == seats.len() && forall|i: int|
        0 <= i < list.len() ==> (#[trigger] list[i]).shows(players, names, seats[i])
}

/// The entries show all players, in the order of their seats.
pub open spec fn show_everybody(
    list: Seq<PlayerInfo>,
    players: Seq<PlayerView>,
    names: Seq<(String, String)>,
) -> bool {
    list.len() == players.len() && forall|i: int|
        0 <= i < list.len() ==> (#[trigger] list[i]).shows(players, names, i)
}

impl CommonStateData {
    /// The common part shows the match, its players and the time stamp.
    pub open spec fn shows(
        self,
        game: MatchView,
        players: Seq<PlayerView>,
        names: Seq<(String, String)>,
        host: Seq<char>,
        timestamp: i64,
    ) -> bool {
        &&& self.game_id@ == game.id
        &&& self.timestamp == timestamp
        &&& self.match_info.id@ == game.id
        &&& self.match_info.pin == game.pin
        &&& self.match_info.status@ == status_text(game.status)
        &&& self.match_info.number_of_crosses == game.number_of_crosses
        &&& self.match_info.current_cross == game.current_cross
        &&& self.match_info.created_timestamp == game.created_timestamp
        &&& self.match_info.host@ == host
        &&& show_everybody(self.players@, players, names)
    }
}

impl PlayerHand {
    /// The hand shows the cards by their codes, the trump counts, and the
    /// seat.
    pub open spec fn shows(self, cards: Seq<Card>, seat: usize) -> bool {
        &&& text_views(self.cards@) == codes_of(cards)
        &&& self.trump_counts@ == trump_count_map(cards)
        &&& self.position == seat_byte(seat)
    }
}

/// The options show the bids, one for one.
pub open spec fn show_bids(options: Seq<BidOption>, bids: Seq<BidOptionView>) -> bool {
    options.len() == bids.len() && forall|i: int|
        0 <= i < options.len() ==> {
            &&& (#[trigger] options[i]).length == bids[i].length
            &&& options[i].suit@ == bids[i].suit
            &&& options[i].display_text@ == bids[i].display_text
            &&& options[i].is_club_declaration == bids[i].is_club_declaration
        }
}

impl BidInfo {
    /// The entry shows the highest bid of the match with the name of its
    /// bidder.
    pub open spec fn shows(self, game: MatchView, players: Seq<PlayerView>, names: Seq<(String, String)>) -> bool {
        &&& Some(self.length) == game.highest_bid_length
        &&& Some(self.suit@) == game.highest_bid_suit
        &&& self.bidder == seat_byte(game.highest_bidder->0)
        &&& self.bidder_username@ == name_at(names, players, game.highest_bidder->0 as int)
        &&& self.is_club_declaration == (game.highest_bid_suit->0 == "clubs"@)
    }
}

/// The history shows the highest bid of the match, where there is one,
/// and nothing else.
pub open spec fn shows_history(
    history: Seq<BidHistoryEntry>,
    game: MatchView,
    players: Seq<PlayerView>,
    names: Seq<(String, String)>,
    now: i64,
) -> bool {
    if game.has_winning_bid() {
        &&& history.len() == 1
        &&& history[0].player == seat_byte(game.highest_bidder->0)
        &&& history[0].username@ == name_at(names, players, game.highest_bidder->0 as int)
        &&& history[0].action@ == "bid"@
        &&& history[0].timestamp == now
        &&& history[0].bid_info is Some
        &&& history[0].bid_info->0.shows(game, players, names)
    } else {
        history.len() == 0
    }
}

impl Partnership {
    /// The teams show the trump team and the others, each as far as the
    /// seats are taken.
    pub open spec fn shows(
        self,
        players: Seq<PlayerView>,
        names: Seq<(String, String)>,
        team: (usize, usize),
    ) -> bool {
        &&& show_seats(self.trump_team@, players, names, team_seats(team, players.len()))
        &&& show_seats(self.opponent_team@, players, names, other_seats(team, players.len(), 4))
    }
}

impl TrumpInfo {
    /// The entry shows trump, the declarer and the teams.
    pub open spec fn shows(
        self,
        game: MatchView,
        players: Seq<PlayerView>,
        names: Seq<(String, String)>,
        team: (usize, usize),
    ) -> bool {
        &&& Some(self.trump_suit@) == game.trump_suit
        &&& self.trump_declarer == seat_byte(game.trump_declarer->0)
        &&& self.trump_declarer_username@ == name_at(names, players, game.trump_declarer->0 as int)
        &&& self.partnership.shows(players, names, team)
    }
}

impl TrickState {
    /// The entry shows the trick in progress: its cards with seat, name
    /// and code, who is on turn unless it is complete, and who led.
    pub open spec fn shows(
        self,
        game: GameTrickView,
        players: Seq<PlayerView>,
        names: Seq<(String, String)>,
        now: i64,
    ) -> bool {
        let trick = game.current_trick;
        &&& self.trick_number == trick.trick_number
        &&& self.is_complete == trick.is_complete
        &&& self.winner == opt_seat_byte(trick.trick_winner)
        &&& self.current_player == (if trick.is_complete {
            None
        } else {
            Some(seat_byte(trick.current_player))
        })
        &&& self.leader == seat_byte(
            if trick.cards_played.len() > 0 {
                trick.cards_played[0].0
            } else {
                trick.current_player
            },
        )
        &&& self.cards_played@.len() == trick.cards_played.len()
        &&& forall|i: int|
            0 <= i < self.cards_played@.len() ==> {
                &&& (#[trigger] self.cards_played@[i]).player == seat_byte(trick.cards_played[i].0)
                &&& self.cards_played@[i].card@ == card_code(trick.cards_played[i].1)
                &&& self.cards_played@[i].username@ == name_at(
                    names,
                    players,
                    trick.cards_played[i].0 as int,
                )
                &&& self.cards_played@[i].timestamp == now
            }
    }
}

impl TurnInfo {
    /// The entry shows who is on turn, and whether it is the user.
    pub open spec fn shows(
        self,
        game: GameTrickView,
        players: Seq<PlayerView>,
        names: Seq<(String, String)>,
        seat: Option<usize>,
    ) -> bool {
        &&& self.current_player == seat_byte(game.current_trick.current_player)
        &&& self.current_player_username@ == name_at(
            names,
            players,
            game.current_trick.current_player as int,
        )
        &&& self.is_your_turn == (!game.current_trick.is_complete && seat == Some(
            game.current_trick.current_player,
        ))
    }
}

/// The tally of a game with the tricks that are still to play.
pub open spec fn score_of(game: GameTrickView) -> ScoreState {
    ScoreState {
        trump_team_tricks: game.tricks_won.0,
        opponent_team_tricks: game.tricks_won.1,
        trump_team_points: game.points_accumulated.0,
        opponent_team_points: game.points_accumulated.1,
        tricks_remaining: tricks_remaining(game),
    }
}

/// The counts of the cross, or those of a fresh cross where there is none.
pub open spec fn cross_counts(cross: Option<CrossView>) -> CrossScores {
    match cross {
        Some(c) => CrossScores {
            trump_team_remaining: c.trump_team_score,
            opponent_team_remaining: c.opponent_team_score,
            trump_team_crosses: c.trump_team_crosses,
            opponent_team_crosses: c.opponent_team_crosses,
        },
        None => CrossScores {
            trump_team_remaining: 24,
            opponent_team_remaining: 24,
            trump_team_crosses: 0,
            opponent_team_crosses: 0,
        },
    }
}

/// The result shown where none was stored.
pub open spec fn shows_no_result(result: GameResult) -> bool {
    &&& result.result_type@ == "completed"@
    &&& result.description@ == "Game completed - results unavailable"@
    &&& result.trump_team_score == 0
    &&& result.opponent_team_score == 0
    &&& !result.individual_vol
}

impl WinnerInfo {
    /// The entry names the side that scored more, the opponents where
    /// neither did, with the players of that side.
    pub open spec fn shows(
        self,
        scores: GameResult,
        players: Seq<PlayerView>,
        names: Seq<(String, String)>,
        team: (usize, usize),
    ) -> bool {
        let trump_wins = scores.trump_team_score > scores.opponent_team_score;
        &&& self.winning_team@ == (if trump_wins {
            "trump_team"@
        } else {
            "opponent_team"@
        })
        &&& !self.double_victory
        &&& show_seats(
            self.winning_players@,
            players,
            names,
            if trump_wins {
                team_seats(team, players.len())
            } else {
                other_seats(team, players.len(), 4)
            },
        )
    }
}

/// The trump team of a completed match: the declarer with the partner
/// that is given, or with the seat across where none is given.
pub open spec fn team_of(game: MatchView, partner: Option<usize>) -> (usize, usize) {
    (
        game.trump_declarer->0,
        match partner {
            Some(p) => p,
            None => opposite_seat(game.trump_declarer->0),
        },
    )
}

impl Directory {
    /// The display name of a user, or `Unknown Player`.
    pub fn username(&self, user_id: &str) -> (name: String)
        ensures
            name@ == name_of(self.names@, user_id@),
    {
        let mut i: usize = 0;
        assert(self.names@.subrange(0, self.names@.len() as int) =~= self.names@);
        while i < self.names.len()
            invariant
                i <= self.names@.len(),
                name_of(self.names@, user_id@) == name_of(
                    self.names@.subrange(i as int, self.names@.len() as int),
                    user_id@,
                ),
            decreases self.names@.len() - i,
        {
            let ghost rest = self.names@.subrange(i as int, self.names@.len() as int);
            assert(rest[0] == self.names@[i as int]);
            assert(rest.drop_first() =~= self.names@.subrange(i + 1, self.names@.len() as int));
            if str_eq(self.names[i].0.as_str(), user_id) {
                return self.names[i].1.clone();
            }
            i += 1;
        }
        assert(self.names@.subrange(i as int, self.names@.len() as int) =~= Seq::<
            (String, String),
        >::empty());
        String::from_str("Unknown Player")
    }

    /// The display name of the user at a seat, or `Unknown Player`.
    pub fn username_at(&self, roster: &Roster, seat: usize) -> (name: String)
        ensures
            name@ == name_at(self.names@, roster@, seat as int),
    {
        if seat < roster.players.len() {
            self.username(roster.players[seat].user_id.as_str())
        } else {
            String::from_str("Unknown Player")
        }
    }
}

/// Builds snapshots.
pub struct StateBuilder;

impl StateBuilder {
    /// The name of the event and of the phase for the snapshot of a match.
    /// A match that was called off has no snapshot.
    pub fn send_initial_state(status: NormalMatchStatus) -> (res: Result<
        (&'static str, &'static str),
        String,
    >)
        ensures
            res is Ok <==> snapshot_names(status) is Some,
            res matches Ok(names) ==> Some((names.0@, names.1@)) == snapshot_names(status),
            res matches Err(e) ==> e@ == "Unknown game status"@,
    {
        match status {
            NormalMatchStatus::Waiting => Ok(("initial_state_waiting", "waiting")),
            NormalMatchStatus::Dealing => Ok(("initial_state_dealing", "dealing")),
            NormalMatchStatus::Bidding => Ok(("initial_state_bidding", "bidding")),
            NormalMatchStatus::Playing => Ok(("initial_state_playing", "playing")),
            NormalMatchStatus::Completed => Ok(("initial_state_completed", "completed")),
            NormalMatchStatus::Cancelled => Err(String::from_str("Unknown game status")),
        }
    }

    /// A player of the match for a snapshot, with name and seat.
    pub fn player_info(roster: &Roster, names: &Directory, seat: usize) -> (info: PlayerInfo)
        requires
            seat < roster@.len(),
        ensures
            info.shows(roster@, names.names@, seat as int),
    {
        PlayerInfo {
            user_id: roster.players[seat].user_id.clone(),
            username: names.username(roster.players[seat].user_id.as_str()),
            position: Some(seat_to_byte(seat)),
            role: roster.players[seat].role.clone(),
        }
    }

    /// The players of the match for a snapshot, in the order of their
    /// seats.
    pub fn get_players_info(roster: &Roster, names: &Directory) -> (players: Vec<PlayerInfo>)
        ensures
            show_everybody(players@, roster@, names.names@),
    {
        let mut players: Vec<PlayerInfo> = Vec::new();
        let mut i: usize = 0;
        while i < roster.players.len()
            invariant
                i <= roster.players@.len(),
                players@.len() == i,
                forall|k: int| 0 <= k < i ==> (#[trigger] players@[k]).shows(roster@, names.names@, k),
            decreases roster.players@.len() - i,
        {
            players.push(StateBuilder::player_info(roster, names, i));
            i += 1;
        }
        players
    }

    /// What every snapshot holds: the record of the match, its players,
    /// and the time stamp of the snapshot.
    pub fn build_common_state(
        game: &NormalMatch,
        roster: &Roster,
        names: &Directory,
        host_id: &str,
        timestamp: i64,
    ) -> (common: CommonStateData)
        ensures
            common.shows(game@, roster@, names.names@, host_id@, timestamp),
    {
        CommonStateData {
            game_id: game.id.clone(),
            match_info: MatchInfo {
                id: game.id.clone(),
                pin: game.pin,
                status: game.status.to_string(),
                number_of_crosses: game.number_of_crosses,
                current_cross: game.current_cross,
                created_timestamp: game.created_timestamp,
                host: String::from_str(host_id),
            },
            players: StateBuilder::get_players_info(roster, names),
            timestamp,
        }
    }

    /// The snapshot of a match that waits for players: whether the user
    /// hosts it, how many players are missing, and whether the user can
    /// start the game, which takes the host and four players.
    pub fn build_waiting_state(
        common: CommonStateData,
        game: &NormalMatch,
        roster: &Roster,
        user_id: &str,
    ) -> (state: WaitingStateData)
        ensures
            state.common == common,
            state.is_host == is_host(roster@, user_id@),
            state.players_needed == players_needed(roster@.len()),
            state.can_start_game == (is_host(roster@, user_id@) && roster@.len() == 4
                && game@.status == NormalMatchStatus::Waiting),
    {
        let hosts = roster.is_host(user_id);
        let count = roster.len();
        WaitingStateData {
            common,
            can_start_game: hosts && count == 4 && game.status == NormalMatchStatus::Waiting,
            players_needed: if count >= 4 {
                0
            } else {
                (4 - count) as u8
            },
            is_host: hosts,
        }
    }

    /// How far dealing has come, by the hands that the store holds.
    pub fn get_dealing_progress(hands_present: &[bool; 4]) -> (progress: String)
        ensures
            progress@ == dealing_progress(hands_present@),
    {
        if !hands_present[0] {
            String::from_str("starting")
        } else if hands_present[1] && hands_present[2] && hands_present[3] {
            String::from_str("complete")
        } else {
            String::from_str("dealing")
        }
    }

    /// The snapshot of a match in which cards are dealt.
    pub fn build_dealing_state(common: CommonStateData, game: &NormalMatch, hands_present: &[bool; 4]) -> (state:
        DealingStateData)
        ensures
            state.common == common,
            state.dealer_position == seat_byte_or_zero(game@.dealer_position),
            state.dealing_progress@ == dealing_progress(hands_present@),
    {
        DealingStateData {
            common,
            dealer_position: seat_or_zero(game.dealer_position),
            dealing_progress: StateBuilder::get_dealing_progress(hands_present),
        }
    }

    /// The hand of the user for a snapshot.
    pub fn player_hand(hand: &Hand, seat: usize) -> (shown: PlayerHand)
        requires
            hand.cards@.len() <= u8::MAX,
        ensures
            shown.shows(hand.cards@, seat),
    {
        let cards = hand.to_codes();
        assert(text_views(cards@) =~= codes_of(hand.cards@));
        PlayerHand {
            cards,
            trump_counts: hand.calculate_trump_counts(),
            position: seat_to_byte(seat),
        }
    }

    /// The bids that the user may make, for a snapshot.
    pub fn bid_options(hand: &Hand, current_highest: Option<u8>) -> (options: Vec<BidOption>)
        requires
            hand.cards@.len() < u8::MAX,
        ensures
            show_bids(options@, available_bids(hand.cards@, current_highest)),
    {
        let bids = hand.get_available_bids(current_highest);
        let mut options: Vec<BidOption> = Vec::new();
        let mut i: usize = 0;
        while i < bids.len()
            invariant
                i <= bids@.len(),
                options@.len() == i,
                forall|k: int|
                    0 <= k < i ==> {
                        &&& (#[trigger] options@[k]).length == bids@[k]@.length
                        &&& options@[k].suit@ == bids@[k]@.suit
                        &&& options@[k].display_text@ == bids@[k]@.display_text
                        &&& options@[k].is_club_declaration == bids@[k]@.is_club_declaration
                    },
            decreases bids@.len() - i,
        {
            options.push(
                BidOption {
                    length: bids[i].length,
                    suit: bids[i].suit.clone(),
                    display_text: bids[i].display_text.clone(),
                    is_club_declaration: bids[i].is_club_declaration,
                },
            );
            i += 1;
        }
        options
    }

    /// The highest bid so far with the name of its bidder, where the
    /// match records a bid in full.
    pub fn get_current_highest_bid(game: &NormalMatch, roster: &Roster, names: &Directory) -> (bid:
        Option<BidInfo>)
        ensures
            bid is Some <==> game@.has_winning_bid(),
            bid matches Some(info) ==> info.shows(game@, roster@, names.names@),
    {
        match (game.highest_bid_length, game.highest_bidder, &game.highest_bid_suit) {
            (Some(length), Some(bidder), Some(suit)) => Some(
                BidInfo {
                    length,
                    suit: suit.clone(),
                    bidder: seat_to_byte(bidder),
                    bidder_username: names.username_at(roster, bidder),
                    is_club_declaration: str_eq(suit.as_str(), "clubs"),
                },
            ),
            _ => None,
        }
    }

    /// The bidding so far, in brief: the highest bid, where there is one.
    pub fn build_bidding_history(game: &NormalMatch, roster: &Roster, names: &Directory, now: i64) -> (history:
        Vec<BidHistoryEntry>)
        ensures
            shows_history(history@, game@, roster@, names.names@, now),
    {
        let mut history: Vec<BidHistoryEntry> = Vec::new();
        match StateBuilder::get_current_highest_bid(game, roster, names) {
            Some(bid) => {
                history.push(
                    BidHistoryEntry {
                        player: bid.bidder,
                        username: bid.bidder_username.clone(),
                        action: String::from_str("bid"),
                        bid_info: Some(bid),
                        timestamp: now,
                    },
                );
            },
            None => {},
        }
        history
    }

    /// The snapshot of a match in bidding. The user sees their own hand
    /// and what they may bid; they can pass when they are on turn, and bid
    /// when they are on turn and hold a bid. A match without dealer or
    /// bidder has no such snapshot.
    pub fn build_bidding_state(
        common: CommonStateData,
        game: &NormalMatch,
        roster: &Roster,
        names: &Directory,
        seat: Option<usize>,
        hand: Option<&Hand>,
        now: i64,
    ) -> (res: Result<BiddingStateData, String>)
        requires
            hand matches Some(h) ==> h.cards@.len() < u8::MAX,
        ensures
            res is Ok <==> game@.dealer_position is Some && game@.current_bidder is Some,
            res matches Err(e) ==> e@ == (if game@.dealer_position is None {
                "Dealer position not set"@
            } else {
                "Current bidder not set"@
            }),
            res matches Ok(state) ==> {
                let shown = seat is Some && hand is Some;
                let on_turn = shown && seat_byte(seat->0) == seat_byte(game@.current_bidder->0);
                &&& state.common == common
                &&& state.dealer_position == seat_byte(game@.dealer_position->0)
                &&& state.current_bidder == seat_byte(game@.current_bidder->0)
                &&& state.player_hand is Some <==> shown
                &&& shown ==> state.player_hand->0.shows(hand->0.cards@, seat->0)
                &&& show_bids(
                    state.available_bids@,
                    if shown {
                        available_bids(hand->0.cards@, game@.highest_bid_length)
                    } else {
                        Seq::empty()
                    },
                )
                &&& state.can_pass == on_turn
                &&& state.can_bid == (on_turn && state.available_bids@.len() > 0)
                &&& state.highest_bid is Some <==> game@.has_winning_bid()
                &&& state.highest_bid matches Some(info) ==> info.shows(game@, roster@, names.names@)
                &&& shows_history(state.bidding_history@, game@, roster@, names.names@, now)
            },
    {
        let dealer = match game.dealer_position {
            Some(d) => d,
            None => {
                return Err(String::from_str("Dealer position not set"));
            },
        };
        let bidder = match game.current_bidder {
            Some(b) => b,
            None => {
                return Err(String::from_str("Current bidder not set"));
            },
        };
        let mut player_hand: Option<PlayerHand> = None;
        let mut options: Vec<BidOption> = Vec::new();
        let mut can_bid = false;
        let mut can_pass = false;
        match (seat, hand) {
            (Some(s), Some(h)) => {
                options = StateBuilder::bid_options(h, game.highest_bid_length);
                let on_turn = seat_to_byte(s) == seat_to_byte(bidder);
                player_hand = Some(StateBuilder::player_hand(h, s));
                can_pass = on_turn;
                can_bid = on_turn && options.len() > 0;
            },
            _ => {},
        }
        Ok(
            BiddingStateData {
                common,
                dealer_position: seat_to_byte(dealer),
                current_bidder: seat_to_byte(bidder),
                player_hand,
                available_bids: options,
                highest_bid: StateBuilder::get_current_highest_bid(game, roster, names),
                bidding_history: StateBuilder::build_bidding_history(game, roster, names, now),
                can_bid,
                can_pass,
            },
        )
    }

    /// The tally of a game with the tricks that are still to play.
    pub fn build_score_state(game: &GameTrickState) -> (score: ScoreState)
        ensures
            score == score_of(game@),
    {
        let won = game.tricks_won.0 as u16 + game.tricks_won.1 as u16;
        ScoreState {
            trump_team_tricks: game.tricks_won.0,
            opponent_team_tricks: game.tricks_won.1,
            trump_team_points: game.points_accumulated.0,
            opponent_team_points: game.points_accumulated.1,
            tricks_remaining: if won >= 8 {
                0
            } else {
                (8 - won) as u8
            },
        }
    }

    /// The trick in progress for a snapshot: the cards that lie, each
    /// with the seat and the name of who played it, and the seat on turn
    /// unless the trick is complete.
    pub fn get_current_trick_state(game: &GameTrickState, roster: &Roster, names: &Directory, now: i64) -> (trick:
        TrickState)
        ensures
            trick.shows(game@, roster@, names.names@, now),
    {
        let current = &game.current_trick;
        let mut cards: Vec<CardPlay> = Vec::new();
        let mut i: usize = 0;
        while i < current.cards_played.len()
            invariant
                i <= current.cards_played@.len(),
                cards@.len() == i,
                forall|k: int|
                    0 <= k < i ==> {
                        &&& (#[trigger] cards@[k]).player == seat_byte(current.cards_played@[k].0)
                        &&& cards@[k].card@ == card_code(current.cards_played@[k].1)
                        &&& cards@[k].username@ == name_at(
                            names.names@,
                            roster@,
                            current.cards_played@[k].0 as int,
                        )
                        &&& cards@[k].timestamp == now
                    },
            decreases current.cards_played@.len() - i,
        {
            let (seat, card) = current.cards_played[i];
            cards.push(
                CardPlay {
                    player: seat_to_byte(seat),
                    username: names.username_at(roster, seat),
                    card: card.code(),
                    timestamp: now,
                },
            );
            i += 1;
        }
        let leader = if current.cards_played.len() > 0 {
            current.cards_played[0].0
        } else {
            current.current_player
        };
        TrickState {
            trick_number: current.trick_number,
            cards_played: cards,
            current_player: if current.is_complete {
                None
            } else {
                Some(seat_to_byte(current.current_player))
            },
            leader: seat_to_byte(leader),
            is_complete: current.is_complete,
            winner: seat_to_opt_byte(current.trick_winner),
        }
    }

    /// Whose turn it is, and whether it is the user's.
    pub fn build_turn_info(game: &GameTrickState, roster: &Roster, names: &Directory, seat: Option<usize>) -> (turn:
        TurnInfo)
        ensures
            turn.shows(game@, roster@, names.names@, seat),
    {
        let on_turn = game.current_trick.current_player;
        TurnInfo {
            current_player: seat_to_byte(on_turn),
            current_player_username: names.username_at(roster, on_turn),
            is_your_turn: !game.current_trick.is_complete && match seat {
                Some(s) => s == on_turn,
                None => false,
            },
        }
    }

    /// The codes of the cards that the user may play now: none unless the
    /// user is on turn.
    pub fn calculate_legal_cards(game: &GameTrickState, hand: &Hand, seat: usize) -> (codes: Vec<String>)
        ensures
            text_views(codes@) == legal_codes(hand.cards@, game@, seat),
    {
        let mut codes: Vec<String> = Vec::new();
        if game.current_trick.is_complete || game.current_trick.current_player != seat {
            assert(text_views(codes@) =~= Seq::<Seq<char>>::empty());
            return codes;
        }
        let legal = game.current_trick.get_legal_cards(hand.cards.as_slice());
        let mut i: usize = 0;
        while i < legal.len()
            invariant
                i <= legal@.len(),
                codes@.len() == i,
                forall|k: int| 0 <= k < i ==> (#[trigger] codes@[k])@ == card_code(legal@[k]),
            decreases legal@.len() - i,
        {
            codes.push(legal[i].code());
            i += 1;
        }
        assert(text_views(codes@) =~= codes_of(legal@));
        codes
    }

    /// The two teams for a snapshot: the declarer and the partner, and
    /// the two other seats in the order of the table, each as far as the
    /// seat is taken.
    pub fn build_partnership(roster: &Roster, names: &Directory, trump_team: (usize, usize)) -> (teams:
        Partnership)
        ensures
            teams.shows(roster@, names.names@, trump_team),
    {
        let mut trump: Vec<PlayerInfo> = Vec::new();
        let mut opponents: Vec<PlayerInfo> = Vec::new();
        if trump_team.0 < roster.len() {
            trump.push(StateBuilder::player_info(roster, names, trump_team.0));
        }
        if trump_team.1 < roster.len() && trump_team.1 != trump_team.0 {
            trump.push(StateBuilder::player_info(roster, names, trump_team.1));
        }
        let mut seat: usize = 0;
        while seat < 4
            invariant
                seat <= 4,
                show_seats(
                    opponents@,
                    roster@,
                    names.names@,
                    other_seats(trump_team, roster@.len(), seat as int),
                ),
            decreases 4 - seat,
        {
            if seat != trump_team.0 && seat != trump_team.1 && seat < roster.len() {
                opponents.push(StateBuilder::player_info(roster, names, seat));
            }
            seat += 1;
        }
        Partnership { trump_team: trump, opponent_team: opponents }
    }

    /// Trump and the teams for a snapshot. A match without trump or
    /// declarer has none.
    pub fn build_trump_info(game: &NormalMatch, roster: &Roster, names: &Directory, trump_team: (
        usize,
        usize,
    )) -> (res: Result<TrumpInfo, String>)
        ensures
            res is Ok <==> game@.trump_suit is Some && game@.trump_declarer is Some,
            res matches Err(e) ==> e@ == (if game@.trump_suit is None {
                "Trump suit not set"@
            } else {
                "Trump declarer not set"@
            }),
            res matches Ok(info) ==> info.shows(game@, roster@, names.names@, trump_team),
    {
        let suit = match &game.trump_suit {
            Some(s) => s.clone(),
            None => {
                return Err(String::from_str("Trump suit not set"));
            },
        };
        let declarer = match game.trump_declarer {
            Some(d) => d,
            None => {
                return Err(String::from_str("Trump declarer not set"));
            },
        };
        Ok(
            TrumpInfo {
                trump_suit: suit,
                trump_declarer: seat_to_byte(declarer),
                trump_declarer_username: names.username_at(roster, declarer),
                partnership: StateBuilder::build_partnership(roster, names, trump_team),
            },
        )
    }

    /// The snapshot of a match in play. The user sees their own hand and,
    /// when on turn, the cards that they may play. A match without trump
    /// or declarer has no such snapshot.
    pub fn build_playing_state(
        common: CommonStateData,
        game: &NormalMatch,
        tricks: &GameTrickState,
        roster: &Roster,
        names: &Directory,
        seat: Option<usize>,
        hand: Option<&Hand>,
        now: i64,
    ) -> (res: Result<PlayingStateData, String>)
        requires
            hand matches Some(h) ==> h.cards@.len() <= u8::MAX,
        ensures
            res is Ok <==> game@.trump_suit is Some && game@.trump_declarer is Some,
            res matches Err(e) ==> e@ == (if game@.trump_suit is None {
                "Trump suit not set"@
            } else {
                "Trump declarer not set"@
            }),
            res matches Ok(state) ==> {
                let shown = seat is Some && hand is Some;
                &&& state.common == common
                &&& state.trump_info.shows(game@, roster@, names.names@, tricks@.trump_team)
                &&& state.player_hand is Some <==> shown
                &&& shown ==> state.player_hand->0.shows(hand->0.cards@, seat->0)
                &&& text_views(state.legal_cards@) == (if shown {
                    legal_codes(hand->0.cards@, tricks@, seat->0)
                } else {
                    Seq::empty()
                })
                &&& state.current_trick.shows(tricks@, roster@, names.names@, now)
                &&& state.score_state == score_of(tricks@)
                &&& state.turn_info.shows(tricks@, roster@, names.names@, seat)
            },
    {
        let trump_info = match StateBuilder::build_trump_info(game, roster, names, tricks.trump_team) {
            Ok(info) => info,
            Err(e) => {
                return Err(e);
            },
        };
        let mut player_hand: Option<PlayerHand> = None;
        let mut legal_cards: Vec<String> = Vec::new();
        assert(text_views(legal_cards@) =~= Seq::<Seq<char>>::empty());
        match (seat, hand) {
            (Some(s), Some(h)) => {
                player_hand = Some(StateBuilder::player_hand(h, s));
                legal_cards = StateBuilder::calculate_legal_cards(tricks, h, s);
            },
            _ => {},
        }
        Ok(
            PlayingStateData {
                common,
                trump_info,
                player_hand,
                legal_cards,
                current_trick: StateBuilder::get_current_trick_state(tricks, roster, names, now),
                score_state: StateBuilder::build_score_state(tricks),
                turn_info: StateBuilder::build_turn_info(tricks, roster, names, seat),
            },
        )
    }

    /// The counts of the cross for a snapshot; those of a fresh cross
    /// where the store holds none.
    pub fn get_cross_scores(cross: Option<&CrossState>) -> (scores: CrossScores)
        ensures
            scores == cross_counts(
                match cross {
                    Some(c) => Some(c@),
                    None => None,
                },
            ),
    {
        match cross {
            Some(c) => CrossScores {
                trump_team_remaining: c.trump_team_score,
                opponent_team_remaining: c.opponent_team_score,
                trump_team_crosses: c.trump_team_crosses,
                opponent_team_crosses: c.opponent_team_crosses,
            },
            None => CrossScores {
                trump_team_remaining: 24,
                opponent_team_remaining: 24,
                trump_team_crosses: 0,
                opponent_team_crosses: 0,
            },
        }
    }

    /// Whether the user can start another game: the host can, as long as
    /// neither team has won the cross.
    pub fn can_start_new_game(hosts: bool, cross_scores: &CrossScores) -> (can: bool)
        ensures
            can == (hosts && cross_scores.trump_team_remaining > 0
                && cross_scores.opponent_team_remaining > 0),
    {
        let rubber_complete = cross_scores.trump_team_remaining <= 0
            || cross_scores.opponent_team_remaining <= 0;
        hosts && !rubber_complete
    }

    /// The result of the game for a snapshot: the one that was stored, or
    /// a note that none is at hand.
    pub fn get_final_game_results(stored: Option<GameResult>) -> (result: GameResult)
        ensures
            stored matches Some(s) ==> result == s,
            stored is None ==> shows_no_result(result),
    {
        match stored {
            Some(result) => result,
            None => GameResult {
                result_type: String::from_str("completed"),
                description: String::from_str("Game completed - results unavailable"),
                trump_team_score: 0,
                opponent_team_score: 0,
                individual_vol: false,
            },
        }
    }

    /// Who won the game: the trump team where it scored more, else the
    /// opponents, with the players of the winning team. A match without
    /// declarer names no winner.
    pub fn build_winner_info(
        final_scores: &GameResult,
        roster: &Roster,
        names: &Directory,
        trump_team: Option<(usize, usize)>,
    ) -> (winner: Option<WinnerInfo>)
        ensures
            winner is Some <==> trump_team is Some,
            winner matches Some(info) ==> info.shows(
                *final_scores,
                roster@,
                names.names@,
                trump_team->0,
            ),
    {
        let team = match trump_team {
            Some(t) => t,
            None => {
                return None;
            },
        };
        let teams = StateBuilder::build_partnership(roster, names, team);
        if final_scores.trump_team_score > final_scores.opponent_team_score {
            Some(
                WinnerInfo {
                    winning_team: String::from_str("trump_team"),
                    winning_players: teams.trump_team,
                    double_victory: false,
                },
            )
        } else {
            Some(
                WinnerInfo {
                    winning_team: String::from_str("opponent_team"),
                    winning_players: teams.opponent_team,
                    double_victory: false,
                },
            )
        }
    }

    /// The snapshot of a match whose game is over: the result that was
    /// stored, the cross, who won, and whether the user can start another
    /// game. A match in another phase has none.
    pub fn build_completed_state(
        common: CommonStateData,
        game: &NormalMatch,
        roster: &Roster,
        names: &Directory,
        user_id: &str,
        stored: Option<GameResult>,
        cross: Option<&CrossState>,
        partner: Option<usize>,
    ) -> (res: Result<CompletedStateData, String>)
        ensures
            res is Ok <==> game@.status == NormalMatchStatus::Completed,
            res matches Err(e) ==> e@ == "Game is not in completed state"@,
            res matches Ok(state) ==> {
                &&& state.common == common
                &&& stored matches Some(s) ==> state.final_scores == s
                &&& stored is None ==> shows_no_result(state.final_scores)
                &&& state.cross_scores == cross_counts(
                    match cross {
                        Some(c) => Some(c@),
                        None => None,
                    },
                )
                &&& state.can_start_new_game == (is_host(roster@, user_id@)
                    && state.cross_scores.trump_team_remaining > 0
                    && state.cross_scores.opponent_team_remaining > 0)
                &&& state.winner_info is Some <==> game@.trump_declarer is Some
                &&& state.winner_info matches Some(info) ==> info.shows(
                    state.final_scores,
                    roster@,
                    names.names@,
                    team_of(game@, partner),
                )
            },
    {
        if game.status != NormalMatchStatus::Completed {
            return Err(String::from_str("Game is not in completed state"));
        }
        let final_scores = StateBuilder::get_final_game_results(stored);
        let cross_scores = StateBuilder::get_cross_scores(cross);
        let team = match game.trump_declarer {
            Some(declarer) => Some(
                (
                    declarer,
                    match partner {
                        Some(p) => p,
                        None => seat_across(declarer),
                    },
                ),
            ),
            None => None,
        };
        let winner_info = StateBuilder::build_winner_info(&final_scores, roster, names, team);
        let can_start_new_game = StateBuilder::can_start_new_game(
            roster.is_host(user_id),
            &cross_scores,
        );
        Ok(CompletedStateData { common, final_scores, cross_scores, winner_info, can_start_new_game })
    }
}

} // verus!
