//! Tricks: playing cards to a trick, finding its winner, and the tally of a
//! game of eight tricks.

use crate::card::{suit_letter, suit_of_text, Card, Suit};
use crate::hand::{collect_followers, playable_cards, total_points};
use crate::scoring::SjavsScoring;
use crate::text::{decimal, format_u64};
use vstd::prelude::*;
use vstd::string::*;

verus! {

/// The state of the trick in progress.
#[derive(Debug)]
pub struct TrickState {
    /// Number of the trick, 1 to 8.
    pub trick_number: u8,
    /// Suit of the first card, which the others have to follow.
    pub lead_suit: Option<Suit>,
    /// The cards played so far, each with the seat that played it.
    pub cards_played: Vec<(usize, Card)>,
    /// The seat whose turn it is.
    pub current_player: usize,
    /// The seat that won the trick, once it is complete.
    pub trick_winner: Option<usize>,
    /// Whether all four cards have been played.
    pub is_complete: bool,
    /// The game that the trick belongs to.
    pub game_id: String,
    /// Wire name of the trump suit.
    pub trump_suit: String,
}

/// A trick as plain values.
pub struct TrickView {
    pub trick_number: u8,
    pub lead_suit: Option<Suit>,
    pub cards_played: Seq<(usize, Card)>,
    pub current_player: usize,
    pub trick_winner: Option<usize>,
    pub is_complete: bool,
    pub game_id: Seq<char>,
    pub trump_suit: Seq<char>,
}

/// Summary of a trick for display.
#[derive(Debug)]
pub struct TrickSummary {
    pub trick_number: u8,
    pub cards_played: u8,
    pub current_player: Option<usize>,
    pub lead_suit: Option<String>,
    pub is_complete: bool,
    pub winner: Option<usize>,
}

/// The tricks of one game.
#[derive(Debug)]
pub struct GameTrickState {
    /// The trick in progress.
    pub current_trick: TrickState,
    /// Tricks won so far: by the trump team, by the opponents.
    pub tricks_won: (u8, u8),
    /// Card points won so far: by the trump team, by the opponents.
    pub points_accumulated: (u8, u8),
    /// The tricks that are over, first to last.
    pub completed_tricks: Vec<TrickState>,
    /// The trump team: the declarer and the partner.
    pub trump_team: (usize, usize),
    /// Whether all eight tricks are over.
    pub game_complete: bool,
}

/// The tricks of one game as plain values.
pub struct GameTrickView {
    pub current_trick: TrickView,
    pub tricks_won: (u8, u8),
    pub points_accumulated: (u8, u8),
    pub completed_tricks: Seq<TrickView>,
    pub trump_team: (usize, usize),
    pub game_complete: bool,
}

/// What completing a trick brought.
#[derive(Debug, Clone, Copy, PartialEq, Eq, Structural)]
pub struct TrickCompletionResult {
    pub winner: usize,
    pub points: u8,
    pub trump_team_won: bool,
    pub game_complete: bool,
    pub next_leader: Option<usize>,
}

/// The cards of a trick without the seats.
pub open spec fn cards_of(played: Seq<(usize, Card)>) -> Seq<Card> {
    Seq::new(played.len(), |i: int| played[i].1)
}

/// The place of the strongest card among the first `n + 1` cards of a
/// trick: the first card holds until a later one wins against the best so
/// far.
pub open spec fn best_index(played: Seq<(usize, Card)>, trump: Suit, lead: Suit, n: int) -> int
    decreases n,
{
    if n <= 0 {
        0
    } else {
        let before = best_index(played, trump, lead, n - 1);
        if played[n].1.spec_beats(played[before].1, trump, lead) {
            n
        } else {
            before
        }
    }
}

/// The seat that wins a trick: the seat that played the strongest card.
pub open spec fn winning_seat(played: Seq<(usize, Card)>, trump: Suit, lead: Suit) -> usize {
    played[best_index(played, trump, lead, played.len() - 1)].0
}

/// The refusal that tells a seat whose turn it is.
pub open spec fn not_your_turn_text(current_player: usize) -> Seq<char> {
    "Not your turn. Current player is "@ + decimal(current_player as nat)
}

impl TrickView {
    /// The trump suit that the wire name denotes.
    pub open spec fn trump(self) -> Option<Suit> {
        suit_of_text(self.trump_suit)
    }

    /// What a trick needs for its fourth card to decide the winner: a
    /// trump suit that exists, and a lead suit.
    pub open spec fn ready(self) -> bool {
        self.cards_played.len() == 3 ==> self.trump() is Some && self.lead_suit is Some
    }

    /// The trick is as playing by the rules leaves it: up to four cards,
    /// played by the seats in rotation; the lead suit that of the first
    /// card; complete exactly with four cards, and then won by the seat
    /// with the strongest card; until then the next seat is on turn.
    pub open spec fn well_formed(self) -> bool {
        &&& self.trump() is Some
        &&& 1 <= self.trick_number <= 8
        &&& self.current_player < 4
        &&& self.cards_played.len() <= 4
        &&& self.cards_played.len() == 0 ==> self.lead_suit is None
        &&& self.cards_played.len() > 0 ==> self.lead_suit == Some(self.cards_played[0].1.suit)
        &&& forall|k: int|
            0 <= k < self.cards_played.len() ==> (#[trigger] self.cards_played[k]).0 == (
            self.cards_played[0].0 + k) % 4
        &&& self.is_complete == (self.cards_played.len() == 4)
        &&& self.is_complete ==> self.trick_winner == Some(
            winning_seat(self.cards_played, self.trump()->0, self.lead_suit->0),
        ) && self.current_player == self.cards_played[3].0
        &&& !self.is_complete ==> self.trick_winner is None
        &&& 0 < self.cards_played.len() < 4 ==> self.current_player == (self.cards_played[0].0
            + self.cards_played.len()) % 4
    }

    /// The trick is won by its strongest card: the winner is the seat of
    /// one of the four cards, that card wins against every card of the
    /// trick that differs from it, and no card of the trick wins against
    /// it.
    pub open spec fn won_by_strongest(self) -> bool {
        let trump = self.trump()->0;
        let lead = self.lead_suit->0;
        let w = best_index(self.cards_played, trump, lead, 3);
        &&& 0 <= w < 4
        &&& self.trick_winner == Some(self.cards_played[w].0)
        &&& forall|k: int|
            0 <= k < 4 && (#[trigger] self.cards_played[k]).1 != self.cards_played[w].1
                ==> self.cards_played[w].1.spec_beats(self.cards_played[k].1, trump, lead)
        &&& forall|k: int|
            0 <= k < 4 ==> !(#[trigger] self.cards_played[k]).1.spec_beats(
                self.cards_played[w].1,
                trump,
                lead,
            )
    }

    /// Why a card is refused, if it is: the seat is not on turn, or the
    /// trick is complete, or it holds four cards.
    pub open spec fn refusal(self, player_position: usize) -> Option<Seq<char>> {
        if player_position != self.current_player {
            Some(not_your_turn_text(self.current_player))
        } else if self.is_complete {
            Some("Trick is already complete"@)
        } else if self.cards_played.len() >= 4 {
            Some("Trick already has 4 cards"@)
        } else {
            None
        }
    }

    /// The trick after a card was played to it: the first card sets the
    /// lead suit; the fourth completes the trick and decides the winner;
    /// before that the turn passes to the next seat.
    pub open spec fn after_play(self, player_position: usize, card: Card) -> TrickView {
        let lead = if self.cards_played.len() == 0 {
            Some(card.suit)
        } else {
            self.lead_suit
        };
        let played = self.cards_played.push((player_position, card));
        if played.len() == 4 {
            TrickView {
                lead_suit: lead,
                cards_played: played,
                is_complete: true,
                trick_winner: Some(winning_seat(played, self.trump()->0, lead->0)),
                ..self
            }
        } else {
            TrickView {
                lead_suit: lead,
                cards_played: played,
                current_player: ((self.current_player + 1) % 4) as usize,
                ..self
            }
        }
    }

    /// The next trick, led by `new_leader`.
    pub open spec fn next(self, new_leader: usize) -> TrickView {
        TrickView {
            trick_number: (self.trick_number + 1) as u8,
            lead_suit: None,
            cards_played: Seq::empty(),
            current_player: new_leader,
            trick_winner: None,
            is_complete: false,
            ..self
        }
    }

    /// The card points that lie in the trick.
    pub open spec fn points(self) -> int {
        total_points(cards_of(self.cards_played))
    }
}

impl View for TrickState {
    type V = TrickView;

    open spec fn view(&self) -> TrickView {
        TrickView {
            trick_number: self.trick_number,
            lead_suit: self.lead_suit,
            cards_played: self.cards_played@,
            current_player: self.current_player,
            trick_winner: self.trick_winner,
            is_complete: self.is_complete,
            game_id: self.game_id@,
            trump_suit: self.trump_suit@,
        }
    }
}

/// The views of a list of tricks.
pub open spec fn trick_views(tricks: Seq<TrickState>) -> Seq<TrickView> {
    Seq::new(tricks.len(), |i: int| tricks[i]@)
}

impl View for GameTrickState {
    type V = GameTrickView;

    open spec fn view(&self) -> GameTrickView {
        GameTrickView {
            current_trick: self.current_trick@,
            tricks_won: self.tricks_won,
            points_accumulated: self.points_accumulated,
            completed_tricks: trick_views(self.completed_tricks@),
            trump_team: self.trump_team,
            game_complete: self.game_complete,
        }
    }
}

/// How many of the tricks a seat has won.
pub open spec fn wins_of(tricks: Seq<TrickView>, seat: usize) -> nat
    decreases tricks.len(),
{
    if tricks.len() == 0 {
        0
    } else {
        wins_of(tricks.drop_last(), seat) + if tricks.last().trick_winner == Some(seat) {
            1nat
        } else {
            0nat
        }
    }
}

/// The card points that lie in a list of tricks.
pub open spec fn points_in(tricks: Seq<TrickView>) -> int
    decreases tricks.len(),
{
    if tricks.len() == 0 {
        0
    } else {
        points_in(tricks.drop_last()) + tricks.last().points()
    }
}

impl GameTrickView {
    /// Whether a seat belongs to the trump team.
    pub open spec fn on_trump_team(self, seat: usize) -> bool {
        self.trump_team.0 == seat || self.trump_team.1 == seat
    }

    /// One seat of the trump team has won eight tricks, and the trump team
    /// is credited with eight.
    pub open spec fn individual_vol(self) -> bool {
        self.tricks_won.0 == 8 && (wins_of(self.completed_tricks, self.trump_team.0) == 8
            || wins_of(self.completed_tricks, self.trump_team.1) == 8)
    }

    /// The tally is as completing tricks by the rules leaves it: every
    /// trick is well formed, those that are over are complete and numbered
    /// from 1, the trick in progress is the next one, the two teams share
    /// the tricks that are over and the card points in them, and the game
    /// is complete with the eighth trick.
    pub open spec fn well_formed(self) -> bool {
        &&& self.current_trick.well_formed()
        &&& self.completed_tricks.len() <= 8
        &&& forall|i: int|
            0 <= i < self.completed_tricks.len() ==> {
                &&& (#[trigger] self.completed_tricks[i]).well_formed()
                &&& self.completed_tricks[i].is_complete
                &&& self.completed_tricks[i].trick_number == i + 1
                &&& self.completed_tricks[i].trump_suit == self.current_trick.trump_suit
            }
        &&& self.tricks_won.0 + self.tricks_won.1 == self.completed_tricks.len()
        &&& self.points_accumulated.0 + self.points_accumulated.1 == points_in(
            self.completed_tricks,
        )
        &&& self.game_complete == (self.completed_tricks.len() == 8)
        &&& if self.game_complete {
            self.current_trick == self.completed_tricks[7]
        } else {
            self.current_trick.trick_number == self.completed_tricks.len() + 1
        }
    }

    /// The tally after the complete trick in progress was counted: the
    /// winner's team gains the trick and its card points, the trick joins
    /// those that are over, and unless it was the eighth the winner leads
    /// the next.
    pub open spec fn after_completion(self) -> GameTrickView {
        let winner = self.current_trick.trick_winner->0;
        let points = self.current_trick.points();
        let tricks_won = if self.on_trump_team(winner) {
            ((self.tricks_won.0 + 1) as u8, self.tricks_won.1)
        } else {
            (self.tricks_won.0, (self.tricks_won.1 + 1) as u8)
        };
        let points_accumulated = if self.on_trump_team(winner) {
            ((self.points_accumulated.0 + points) as u8, self.points_accumulated.1)
        } else {
            (self.points_accumulated.0, (self.points_accumulated.1 + points) as u8)
        };
        let completed_tricks = self.completed_tricks.push(self.current_trick);
        if self.current_trick.trick_number == 8 {
            GameTrickView { tricks_won, points_accumulated, completed_tricks, game_complete: true, ..self }
        } else {
            GameTrickView {
                current_trick: self.current_trick.next(winner),
                tricks_won,
                points_accumulated,
                completed_tricks,
                ..self
            }
        }
    }

    /// What completing the trick in progress reports.
    pub open spec fn completion_report(self) -> TrickCompletionResult {
        let winner = self.current_trick.trick_winner->0;
        let last = self.current_trick.trick_number == 8;
        TrickCompletionResult {
            winner,
            points: self.current_trick.points() as u8,
            trump_team_won: self.on_trump_team(winner),
            game_complete: last,
            next_leader: if last {
                None
            } else {
                Some(winner)
            },
        }
    }

    /// What the trick in progress needs to be counted without overflow: a
    /// winner, and room in the counters.
    pub open spec fn countable(self) -> bool {
        &&& self.current_trick.is_complete ==> self.current_trick.trick_winner is Some
        &&& self.current_trick.points() <= u8::MAX
        &&& self.tricks_won.0 < u8::MAX
        &&& self.tricks_won.1 < u8::MAX
        &&& self.points_accumulated.0 + self.current_trick.points() <= u8::MAX
        &&& self.points_accumulated.1 + self.current_trick.points() <= u8::MAX
        &&& self.current_trick.trick_number < u8::MAX
    }
}

/// The strongest card so far lies among the cards looked at.
pub proof fn lemma_best_index_range(played: Seq<(usize, Card)>, trump: Suit, lead: Suit, n: int)
    requires
        0 <= n,
    ensures
        0 <= best_index(played, trump, lead, n) <= n,
    decreases n,
{
    if n > 0 {
        lemma_best_index_range(played, trump, lead, n - 1);
    }
}

/// In a trick whose lead suit is that of its first card, the strongest card
/// so far is trump or follows the lead, wins against every other card
/// looked at that differs from it, and loses against none of them.
pub proof fn lemma_best_beats_all(played: Seq<(usize, Card)>, trump: Suit, lead: Suit, n: int)
    requires
        0 <= n < played.len(),
        played[0].1.suit == lead,
    ensures
        played[best_index(played, trump, lead, n)].1.in_contention(trump, lead),
        forall|k: int|
            0 <= k <= n && played[k].1 != played[best_index(played, trump, lead, n)].1
                ==> played[best_index(played, trump, lead, n)].1.spec_beats(
                (#[trigger] played[k]).1,
                trump,
                lead,
            ),
        forall|k: int|
            0 <= k <= n ==> !(#[trigger] played[k]).1.spec_beats(
                played[best_index(played, trump, lead, n)].1,
                trump,
                lead,
            ),
    decreases n,
{
    if n > 0 {
        lemma_best_index_range(played, trump, lead, n - 1);
        lemma_best_beats_all(played, trump, lead, n - 1);
        let before = best_index(played, trump, lead, n - 1);
        let now = best_index(played, trump, lead, n);
        let b = played[before].1;
        let c = played[n].1;
        let w = played[now].1;
        assert forall|k: int| 0 <= k <= n && played[k].1 != w implies w.spec_beats(
            (#[trigger] played[k]).1,
            trump,
            lead,
        ) by {
            let x = played[k].1;
            if now == n {
                if k < n && x != b {
                    crate::card::lemma_beats_transitive(c, b, x, trump, lead);
                }
            } else {
                if k == n {
                    crate::card::lemma_beats_total(b, c, trump, lead);
                }
            }
        }
        assert forall|k: int| 0 <= k <= n implies !(#[trigger] played[k]).1.spec_beats(
            w,
            trump,
            lead,
        ) by {
            let x = played[k].1;
            if now == n {
                if k < n {
                    if x.spec_beats(c, trump, lead) {
                        crate::card::lemma_beats_transitive(x, c, b, trump, lead);
                    }
                }
            }
        }
    }
}

/// Exactly one winner: in a well-formed complete trick the card of the
/// winning seat wins against each of the other three cards, given that no
/// card lies in the trick twice, and no card of the trick wins against it.
pub proof fn lemma_one_winner(trick: TrickView)
    requires
        trick.well_formed(),
        trick.is_complete,
        forall|i: int, j: int| 0 <= i < j < 4 ==> trick.cards_played[i].1 != trick.cards_played[j].1,
    ensures
        ({
            let trump = trick.trump()->0;
            let lead = trick.lead_suit->0;
            let w = best_index(trick.cards_played, trump, lead, 3);
            &&& 0 <= w < 4
            &&& trick.trick_winner == Some(trick.cards_played[w].0)
            &&& forall|k: int|
                0 <= k < 4 && k != w ==> trick.cards_played[w].1.spec_beats(
                    (#[trigger] trick.cards_played[k]).1,
                    trump,
                    lead,
                ) && !trick.cards_played[k].1.spec_beats(trick.cards_played[w].1, trump, lead)
        }),
{
    let trump = trick.trump()->0;
    let lead = trick.lead_suit->0;
    lemma_best_index_range(trick.cards_played, trump, lead, 3);
    lemma_best_beats_all(trick.cards_played, trump, lead, 3);
}

/// A seat never wins more tricks than there are, and it has won them all
/// exactly when it has won each.
pub proof fn lemma_wins_of_all(tricks: Seq<TrickView>, seat: usize)
    ensures
        wins_of(tricks, seat) <= tricks.len(),
        wins_of(tricks, seat) == tricks.len() <==> forall|i: int|
            0 <= i < tricks.len() ==> (#[trigger] tricks[i]).trick_winner == Some(seat),
    decreases tricks.len(),
{
    if tricks.len() > 0 {
        let rest = tricks.drop_last();
        lemma_wins_of_all(rest, seat);
        if wins_of(tricks, seat) == tricks.len() {
            assert forall|i: int| 0 <= i < tricks.len() implies (#[trigger] tricks[i]).trick_winner
                == Some(seat) by {
                if i < rest.len() {
                    assert(rest[i] == tricks[i]);
                }
            }
        }
        if forall|i: int| 0 <= i < tricks.len() ==> (#[trigger] tricks[i]).trick_winner == Some(seat) {
            assert forall|i: int| 0 <= i < rest.len() implies (#[trigger] rest[i]).trick_winner
                == Some(seat) by {
                assert(rest[i] == tricks[i]);
            }
            assert(tricks[tricks.len() - 1].trick_winner == Some(seat));
        }
    }
}

/// Individual vol: with eight tricks over, one seat of the trump team has
/// taken all the tricks exactly when the trump team is credited with eight
/// tricks and every one of the eight was won by that same seat of the
/// trump team.
pub proof fn lemma_individual_vol(game: GameTrickView)
    requires
        game.completed_tricks.len() == 8,
    ensures
        game.individual_vol() <==> game.tricks_won.0 == 8 && exists|seat: usize|
            #![trigger game.on_trump_team(seat)]
            game.on_trump_team(seat) && forall|i: int|
                0 <= i < 8 ==> (#[trigger] game.completed_tricks[i]).trick_winner == Some(seat),
{
    lemma_wins_of_all(game.completed_tricks, game.trump_team.0);
    lemma_wins_of_all(game.completed_tricks, game.trump_team.1);
    if game.individual_vol() {
        if wins_of(game.completed_tricks, game.trump_team.0) == 8 {
            assert(game.on_trump_team(game.trump_team.0));
        } else {
            assert(game.on_trump_team(game.trump_team.1));
        }
    }
}

impl Clone for TrickState {
    fn clone(&self) -> (copy: TrickState)
        ensures
            copy@ == self@,
    {
        let mut cards_played: Vec<(usize, Card)> = Vec::new();
        let mut i: usize = 0;
        while i < self.cards_played.len()
            invariant
                i <= self.cards_played@.len(),
                cards_played@ == self.cards_played@.subrange(0, i as int),
            decreases self.cards_played@.len() - i,
        {
            cards_played.push(self.cards_played[i]);
            assert(cards_played@ =~= self.cards_played@.subrange(0, i + 1));
            i += 1;
        }
        assert(cards_played@ =~= self.cards_played@);
        TrickState {
            trick_number: self.trick_number,
            lead_suit: self.lead_suit,
            cards_played,
            current_player: self.current_player,
            trick_winner: self.trick_winner,
            is_complete: self.is_complete,
            game_id: self.game_id.clone(),
            trump_suit: self.trump_suit.clone(),
        }
    }
}

impl Clone for GameTrickState {
    fn clone(&self) -> (copy: GameTrickState)
        ensures
            copy@ == self@,
    {
        let mut completed_tricks: Vec<TrickState> = Vec::new();
        let mut i: usize = 0;
        while i < self.completed_tricks.len()
            invariant
                i <= self.completed_tricks@.len(),
                completed_tricks@.len() == i,
                forall|k: int| 0 <= k < i ==> (#[trigger] completed_tricks@[k])@ == self.completed_tricks@[k]@,
            decreases self.completed_tricks@.len() - i,
        {
            completed_tricks.push(self.completed_tricks[i].clone());
            i += 1;
        }
        assert(trick_views(completed_tricks@) =~= trick_views(self.completed_tricks@));
        GameTrickState {
            current_trick: self.current_trick.clone(),
            tricks_won: self.tricks_won,
            points_accumulated: self.points_accumulated,
            completed_tricks,
            trump_team: self.trump_team,
            game_complete: self.game_complete,
        }
    }
}

impl TrickState {
    /// A new trick, led by `initial_leader`.
    pub fn new(game_id: String, trick_number: u8, initial_leader: usize, trump_suit: String) -> (trick:
        TrickState)
        ensures
            trick@ == (TrickView {
                trick_number,
                lead_suit: None,
                cards_played: Seq::empty(),
                current_player: initial_leader,
                trick_winner: None,
                is_complete: false,
                game_id: game_id@,
                trump_suit: trump_suit@,
            }),
    {
        TrickState {
            trick_number,
            lead_suit: None,
            cards_played: Vec::new(),
            current_player: initial_leader,
            trick_winner: None,
            is_complete: false,
            game_id,
            trump_suit,
        }
    }

    /// Plays a card to the trick for the seat on turn.
    ///
    /// The card is refused, and the trick left as it was, when the seat is
    /// not on turn, the trick is complete, or it holds four cards already.
    /// Otherwise the first card sets the lead suit, the fourth completes the
    /// trick and decides its winner, and before that the turn passes on.
    /// Where the lead suit is that of the first card, the winner is the
    /// seat of the strongest card. A fourth card that is accepted needs a
    /// trump suit that exists and a lead suit.
    pub fn play_card(&mut self, player_position: usize, card: Card) -> (res: Result<(), String>)
        requires
            old(self)@.refusal(player_position) is None ==> old(self)@.ready(),
        ensures
            res is Ok && old(self)@.cards_played.len() == 3 && old(self)@.lead_suit == Some(
                old(self)@.cards_played[0].1.suit,
            ) ==> final(self)@.won_by_strongest(),
            res is Err <==> old(self)@.refusal(player_position) is Some,
            res matches Err(e) ==> final(self)@ == old(self)@ && Some(e@) == old(self)@.refusal(
                player_position,
            ),
            res is Ok ==> final(self)@ == old(self)@.after_play(player_position, card),
            old(self)@.well_formed() ==> final(self)@.well_formed(),
    {
        if player_position != self.current_player {
            let mut e = String::from_str("Not your turn. Current player is ");
            let n = format_u64(self.current_player as u64);
            e.append(n.as_str());
            return Err(e);
        }
        if self.is_complete {
            return Err(String::from_str("Trick is already complete"));
        }
        if self.cards_played.len() >= 4 {
            return Err(String::from_str("Trick already has 4 cards"));
        }
        if self.cards_played.len() == 0 {
            self.lead_suit = Some(card.suit);
        }
        self.cards_played.push((player_position, card));
        if self.cards_played.len() == 4 {
            self.is_complete = true;
            let winner = self.determine_winner();
            self.trick_winner = Some(winner);
        } else {
            self.current_player = crate::normal_match::seat_after(self.current_player);
        }
        proof {
            let before = old(self)@;
            let after = self@;
            assert(after == before.after_play(player_position, card));
            if before.cards_played.len() == 3 && before.lead_suit == Some(
                before.cards_played[0].1.suit,
            ) {
                let trump = after.trump()->0;
                let lead = after.lead_suit->0;
                assert(after.cards_played[0] == before.cards_played[0]);
                lemma_best_index_range(after.cards_played, trump, lead, 3);
                lemma_best_beats_all(after.cards_played, trump, lead, 3);
                assert(after.won_by_strongest());
            }
            if before.well_formed() {
                assert forall|k: int| 0 <= k < after.cards_played.len() implies (
                #[trigger] after.cards_played[k]).0 == (after.cards_played[0].0 + k) % 4 by {
                    if k < before.cards_played.len() {
                        assert(after.cards_played[k] == before.cards_played[k]);
                    }
                }
            }
        }
        Ok(())
    }

    /// The seat that wins the trick: the seat whose card no other card of
    /// the trick wins against, found by holding each card against the best
    /// so far.
    pub fn determine_winner(&self) -> (winner: usize)
        requires
            self@.cards_played.len() == 4,
            self@.trump() is Some,
            self@.lead_suit is Some,
        ensures
            winner == winning_seat(self@.cards_played, self@.trump()->0, self@.lead_suit->0),
    {
        let trump_suit = Suit::from(self.trump_suit.as_str());
        let lead_suit = match self.lead_suit {
            Some(suit) => suit,
            None => Suit::Hearts,
        };
        let mut best: usize = 0;
        let mut k: usize = 1;
        while k < 4
            invariant
                1 <= k <= 4,
                self.cards_played@.len() == 4,
                best == best_index(self.cards_played@, trump_suit, lead_suit, k - 1),
                0 <= best < k,
            decreases 4 - k,
        {
            let card = self.cards_played[k].1;
            let best_card = self.cards_played[best].1;
            if card.beats(&best_card, trump_suit, lead_suit) {
                best = k;
            }
            k += 1;
        }
        self.cards_played[best].0
    }

    /// The cards of a hand that may be played to the trick: any card to
    /// lead it; after a lead the cards of the lead suit that are no
    /// permanent trumps, and any card where the hand holds none of those.
    pub fn get_legal_cards(&self, player_hand: &[Card]) -> (legal: Vec<Card>)
        ensures
            legal@ == playable_cards(player_hand@, self@.lead_suit),
    {
        let mut hand: Vec<Card> = Vec::new();
        let mut i: usize = 0;
        while i < player_hand.len()
            invariant
                i <= player_hand@.len(),
                hand@ == player_hand@.subrange(0, i as int),
            decreases player_hand@.len() - i,
        {
            hand.push(player_hand[i]);
            assert(hand@ =~= player_hand@.subrange(0, i + 1));
            i += 1;
        }
        assert(hand@ =~= player_hand@);
        match self.lead_suit {
            None => hand,
            Some(lead) => {
                let following = collect_followers(&hand, lead);
                if following.len() > 0 {
                    following
                } else {
                    hand
                }
            },
        }
    }

    /// The trick at a glance. The seat on turn is left out once the trick
    /// is complete; the lead suit is given by its letter; the number of
    /// cards is counted in one byte.
    pub fn get_summary(&self) -> (summary: TrickSummary)
        ensures
            summary.trick_number == self@.trick_number,
            summary.cards_played == self@.cards_played.len() % 256,
            summary.current_player == if self@.is_complete {
                None
            } else {
                Some(self@.current_player)
            },
            summary.lead_suit is Some <==> self@.lead_suit is Some,
            summary.lead_suit matches Some(letter) ==> letter@ == suit_letter(self@.lead_suit->0),
            summary.is_complete == self@.is_complete,
            summary.winner == self@.trick_winner,
    {
        TrickSummary {
            trick_number: self.trick_number,
            cards_played: (self.cards_played.len() % 256) as u8,
            current_player: if self.is_complete {
                None
            } else {
                Some(self.current_player)
            },
            lead_suit: match self.lead_suit {
                Some(suit) => Some(suit.to_string()),
                None => None,
            },
            is_complete: self.is_complete,
            winner: self.trick_winner,
        }
    }

    /// The card points that lie in the trick.
    pub fn calculate_points(&self) -> (points: u8)
        requires
            self@.points() <= u8::MAX,
        ensures
            points == self@.points(),
    {
        let ghost cards = cards_of(self.cards_played@);
        let mut points: u8 = 0;
        let mut i: usize = 0;
        assert(cards.subrange(0, 0) =~= Seq::<Card>::empty());
        while i < self.cards_played.len()
            invariant
                i <= self.cards_played@.len(),
                cards == cards_of(self.cards_played@),
                points == total_points(cards.subrange(0, i as int)),
                total_points(cards) <= u8::MAX,
            decreases self.cards_played@.len() - i,
        {
            proof {
                assert(cards.subrange(0, i + 1).drop_last() =~= cards.subrange(0, i as int));
                crate::hand::lemma_total_points_prefix(cards, i + 1);
            }
            points += self.cards_played[i].1.point_value();
            i += 1;
        }
        assert(cards.subrange(0, cards.len() as int) =~= cards);
        points
    }

    /// Clears the trick for the next one, which `new_leader` leads.
    pub fn start_next_trick(&mut self, new_leader: usize)
        requires
            old(self)@.trick_number < u8::MAX,
        ensures
            final(self)@ == old(self)@.next(new_leader),
    {
        self.trick_number += 1;
        self.lead_suit = None;
        self.cards_played.clear();
        self.current_player = new_leader;
        self.trick_winner = None;
        self.is_complete = false;
    }
}

impl GameTrickState {
    /// The tally at the start of a game: first trick, nothing won.
    pub fn new(game_id: String, initial_leader: usize, trump_suit: String, trump_team: (
        usize,
        usize,
    )) -> (state: GameTrickState)
        ensures
            state@ == (GameTrickView {
                current_trick: TrickView {
                    trick_number: 1,
                    lead_suit: None,
                    cards_played: Seq::empty(),
                    current_player: initial_leader,
                    trick_winner: None,
                    is_complete: false,
                    game_id: game_id@,
                    trump_suit: trump_suit@,
                },
                tricks_won: (0, 0),
                points_accumulated: (0, 0),
                completed_tricks: Seq::empty(),
                trump_team,
                game_complete: false,
            }),
            suit_of_text(trump_suit@) is Some && initial_leader < 4 ==> state@.well_formed(),
    {
        let state = GameTrickState {
            current_trick: TrickState::new(game_id, 1, initial_leader, trump_suit),
            tricks_won: (0, 0),
            points_accumulated: (0, 0),
            completed_tricks: Vec::new(),
            trump_team,
            game_complete: false,
        };
        assert(state@.completed_tricks =~= Seq::empty());
        state
    }

    /// Counts the complete trick in progress: credits the winner's team
    /// with the trick and its card points, files the trick, and either
    /// starts the next trick with the winner leading or, after the eighth,
    /// marks the game complete. Refused while the trick is incomplete.
    pub fn complete_trick(&mut self) -> (res: Result<TrickCompletionResult, String>)
        requires
            old(self)@.countable(),
        ensures
            res is Ok <==> old(self)@.current_trick.is_complete,
            res matches Ok(report) ==> report == old(self)@.completion_report() && final(self)@
                == old(self)@.after_completion(),
            res matches Err(e) ==> final(self)@ == old(self)@ && e@
                == "Current trick is not complete"@,
    {
        if !self.current_trick.is_complete {
            return Err(String::from_str("Current trick is not complete"));
        }
        let winner = match self.current_trick.trick_winner {
            Some(seat) => seat,
            None => 0,
        };
        let points = self.current_trick.calculate_points();
        let trump_team_won = self.trump_team.0 == winner || self.trump_team.1 == winner;
        if trump_team_won {
            self.tricks_won.0 += 1;
            self.points_accumulated.0 += points;
        } else {
            self.tricks_won.1 += 1;
            self.points_accumulated.1 += points;
        }
        let filed = self.current_trick.clone();
        let ghost before = self.completed_tricks@;
        self.completed_tricks.push(filed);
        assert(trick_views(self.completed_tricks@) =~= trick_views(before).push(
            self.current_trick@,
        ));
        if self.current_trick.trick_number == 8 {
            self.game_complete = true;
            return Ok(
                TrickCompletionResult {
                    winner,
                    points,
                    trump_team_won,
                    game_complete: true,
                    next_leader: None,
                },
            );
        }
        self.current_trick.start_next_trick(winner);
        Ok(
            TrickCompletionResult {
                winner,
                points,
                trump_team_won,
                game_complete: false,
                next_leader: Some(winner),
            },
        )
    }

    /// Whether one seat of the trump team took all eight tricks.
    pub fn check_individual_vol(&self) -> (alone: bool)
        ensures
            alone == self@.individual_vol(),
    {
        if self.tricks_won.0 != 8 {
            return false;
        }
        let mut first: usize = 0;
        let mut second: usize = 0;
        let mut i: usize = 0;
        let ghost tricks = trick_views(self.completed_tricks@);
        assert(tricks.subrange(0, 0) =~= Seq::<TrickView>::empty());
        while i < self.completed_tricks.len()
            invariant
                i <= self.completed_tricks@.len(),
                tricks == trick_views(self.completed_tricks@),
                first == wins_of(tricks.subrange(0, i as int), self.trump_team.0),
                second == wins_of(tricks.subrange(0, i as int), self.trump_team.1),
                first <= i,
                second <= i,
            decreases self.completed_tricks@.len() - i,
        {
            proof {
                assert(tricks.subrange(0, i + 1).drop_last() =~= tricks.subrange(0, i as int));
                assert(tricks.subrange(0, i + 1).last() == self.completed_tricks@[i as int]@);
            }
            match self.completed_tricks[i].trick_winner {
                Some(seat) => {
                    if seat == self.trump_team.0 {
                        first += 1;
                    }
                    if seat == self.trump_team.1 {
                        second += 1;
                    }
                },
                None => {},
            }
            i += 1;
        }
        assert(tricks.subrange(0, tricks.len() as int) =~= tricks);
        first == 8 || second == 8
    }

    /// The tallies of the complete game, ready for scoring. Refused until
    /// the game is complete.
    pub fn get_final_scoring(&self) -> (res: Result<SjavsScoring, String>)
        ensures
            res is Ok <==> self@.game_complete,
            res matches Ok(scoring) ==> {
                &&& scoring.trump_team_points == self@.points_accumulated.0
                &&& scoring.opponent_team_points == self@.points_accumulated.1
                &&& scoring.trump_team_tricks == self@.tricks_won.0
                &&& scoring.opponent_team_tricks == self@.tricks_won.1
                &&& scoring.trump_suit@ == self@.current_trick.trump_suit
                &&& scoring.individual_vol == self@.individual_vol()
            },
            res matches Err(e) ==> e@ == "Game not yet complete"@,
    {
        if !self.game_complete {
            return Err(String::from_str("Game not yet complete"));
        }
        Ok(
            SjavsScoring {
                trump_team_points: self.points_accumulated.0,
                opponent_team_points: self.points_accumulated.1,
                trump_team_tricks: self.tricks_won.0,
                opponent_team_tricks: self.tricks_won.1,
                trump_suit: self.current_trick.trump_suit.clone(),
                individual_vol: self.check_individual_vol(),
            },
        )
    }
}

} // verus!
