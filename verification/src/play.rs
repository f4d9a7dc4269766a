//! Playing a card: what the server checks when a seat plays a card, and
//! what the play does to the hand and to the tricks.

use crate::card::{card_code, card_code_complaint, parse_card, Card, Suit};
use crate::conservation::{
    cards_in_hands, conserved, lemma_completion_conserves, lemma_play_conserves,
    lemma_points_bounded,
};
use crate::errors::{plain_error, worded_error, CommandError, ErrorKind, ErrorView};
use crate::events::{TrickEvent, TrickEventView};
use crate::hand::{first_index_of, lemma_first_index_of, may_play, playable_cards, Hand};
use crate::commands::StoreStep;
use crate::normal_match::NormalMatchStatus;
use crate::schemas::{seat_byte, seat_to_byte, trick_info_of, CardPlayResponse, GameTrickInfo};
use crate::text::{decimal, format_u64};
use crate::trick::{
    cards_of, points_in, GameTrickState, GameTrickView, TrickCompletionResult, TrickView,
};
use vstd::prelude::*;
use vstd::string::*;

verus! {

/// What a card that was played has brought.
#[derive(Debug)]
pub struct PlayOutcome {
    /// The seat that played.
    pub seat: usize,
    /// The card that was played.
    pub card: Card,
    /// The hand of the seat, without the card.
    pub hand: Hand,
    /// The tricks after the play.
    pub tricks: GameTrickState,
    /// What completing the trick brought, where the card completed it.
    pub completion: Option<TrickCompletionResult>,
    /// The events to publish, in this order.
    pub events: Vec<TrickEvent>,
}

/// The outcome of a play as plain values.
pub struct PlayOutcomeView {
    pub seat: usize,
    pub card: Card,
    pub hand: Seq<Card>,
    pub hand_position: usize,
    pub tricks: GameTrickView,
    pub completion: Option<TrickCompletionResult>,
    pub events: Seq<TrickEventView>,
}

/// The views of a list of events.
pub open spec fn event_views(events: Seq<TrickEvent>) -> Seq<TrickEventView> {
    Seq::new(events.len(), |i: int| events[i]@)
}

impl View for PlayOutcome {
    type V = PlayOutcomeView;

    open spec fn view(&self) -> PlayOutcomeView {
        PlayOutcomeView {
            seat: self.seat,
            card: self.card,
            hand: self.hand.cards@,
            hand_position: self.hand.player_position,
            tricks: self.tricks@,
            completion: self.completion,
            events: event_views(self.events@),
        }
    }
}

/// The tricks, where there are any, as plain values.
pub open spec fn opt_tricks(tricks: Option<GameTrickState>) -> Option<GameTrickView> {
    match tricks {
        Some(t) => Some(t@),
        None => None,
    }
}

/// The cards of the hand, where there is one.
pub open spec fn opt_cards(hand: Option<Hand>) -> Option<Seq<Card>> {
    match hand {
        Some(h) => Some(h.cards@),
        None => None,
    }
}

/// The tricks are in a state in which a card can be played and counted:
/// a trump suit that exists, a seat on turn, room in the trick, and
/// counters within the bounds of a game.
pub open spec fn playable(game: GameTrickView) -> bool {
    &&& game.current_trick.trump() is Some
    &&& game.current_trick.current_player < 4
    &&& game.current_trick.cards_played.len() > 0 ==> game.current_trick.lead_suit is Some
    &&& !game.current_trick.is_complete
    &&& game.current_trick.cards_played.len() < 4
    &&& !game.game_complete
    &&& game.tricks_won.0 <= 8
    &&& game.tricks_won.1 <= 8
    &&& game.points_accumulated.0 <= 120
    &&& game.points_accumulated.1 <= 120
    &&& 1 <= game.current_trick.trick_number <= 8
}

/// Why a play is refused, if it is. In this order: the match is not in
/// play; the user has no seat; there are no tricks; the seat is not on
/// turn; the seat has no hand; the code denotes no card; the hand does not
/// hold the card; the card does not follow suit though the hand could;
/// the tricks are in no state to take a card.
pub open spec fn play_refusal(
    status: NormalMatchStatus,
    seat: Option<usize>,
    tricks: Option<GameTrickView>,
    hand: Option<Seq<Card>>,
    code: Seq<char>,
) -> Option<ErrorView> {
    if status != NormalMatchStatus::Playing {
        Some(plain_error(ErrorKind::Conflict, "Game is not in playing phase"@))
    } else if seat is None {
        Some(plain_error(ErrorKind::NotFound, "Player not in game"@))
    } else if tricks is None {
        Some(plain_error(ErrorKind::NotFound, "No active trick found"@))
    } else if tricks->0.current_trick.current_player != seat->0 {
        Some(plain_error(ErrorKind::NotYourTurn, "Not your turn to play"@))
    } else if hand is None {
        Some(plain_error(ErrorKind::NotFound, "Player hand not found"@))
    } else if parse_card(code) is None {
        Some(worded_error(ErrorKind::IllegalMove, "Invalid card code"@, card_code_complaint(code)))
    } else if !hand->0.contains(parse_card(code)->0) {
        Some(plain_error(ErrorKind::IllegalMove, "Card not in hand"@))
    } else if !may_play(hand->0, tricks->0.current_trick.lead_suit, parse_card(code)->0) {
        Some(plain_error(ErrorKind::IllegalMove, "Illegal card play"@))
    } else if !playable(tricks->0) {
        Some(plain_error(ErrorKind::Fatal, "Failed to play card"@))
    } else {
        None
    }
}

/// The tricks with the card played to the trick in progress.
pub open spec fn with_card(game: GameTrickView, seat: usize, card: Card) -> GameTrickView {
    GameTrickView { current_trick: game.current_trick.after_play(seat, card), ..game }
}

/// The tricks after a play: the card lies in the trick, and a trick that
/// the card completed has been counted.
pub open spec fn tricks_after_play(game: GameTrickView, seat: usize, card: Card) -> GameTrickView {
    let played = with_card(game, seat, card);
    if played.current_trick.is_complete {
        played.after_completion()
    } else {
        played
    }
}

/// What completing the trick brought, where the card completed it.
pub open spec fn completion_after_play(game: GameTrickView, seat: usize, card: Card) -> Option<
    TrickCompletionResult,
> {
    let played = with_card(game, seat, card);
    if played.current_trick.is_complete {
        Some(played.completion_report())
    } else {
        None
    }
}

/// The event that tells of the card. It names the trick that is in
/// progress after the play, and the seat on turn unless the card completed
/// a trick.
pub open spec fn card_played_event(game: GameTrickView, seat: usize, card: Card) -> TrickEventView {
    let after = tricks_after_play(game, seat, card);
    let completion = completion_after_play(game, seat, card);
    TrickEventView::CardPlayed {
        game_id: game.current_trick.game_id,
        player_position: seat as u8,
        card: card_code(card),
        trick_number: after.current_trick.trick_number,
        cards_in_trick: after.current_trick.cards_played.len() as u8,
        next_player: match completion {
            Some(_) => None,
            None => Some(after.current_trick.current_player as u8),
        },
        trick_complete: completion is Some,
        trick_winner: match completion {
            Some(report) => Some(report.winner as u8),
            None => None,
        },
        points_won: match completion {
            Some(report) => report.points,
            None => 0,
        },
    }
}

/// The event that tells of a trick that the card completed.
pub open spec fn trick_completed_event(game: GameTrickView, seat: usize, card: Card) -> TrickEventView {
    let after = tricks_after_play(game, seat, card);
    let report = completion_after_play(game, seat, card)->0;
    TrickEventView::TrickCompleted {
        game_id: game.current_trick.game_id,
        trick_number: after.completed_tricks.last().trick_number,
        winner: report.winner as u8,
        points: report.points,
        trump_team_score: after.points_accumulated.0,
        opponent_team_score: after.points_accumulated.1,
        game_complete: report.game_complete,
    }
}

/// The events of a play: the card, and the trick where the card completed
/// one.
pub open spec fn play_events(game: GameTrickView, seat: usize, card: Card) -> Seq<TrickEventView> {
    if completion_after_play(game, seat, card) is Some {
        seq![card_played_event(game, seat, card), trick_completed_event(game, seat, card)]
    } else {
        seq![card_played_event(game, seat, card)]
    }
}

/// The outcome of a play that is not refused.
pub open spec fn play_result(game: GameTrickView, hand: Seq<Card>, hand_position: usize, card: Card) -> PlayOutcomeView {
    let seat = game.current_trick.current_player;
    PlayOutcomeView {
        seat,
        card,
        hand: hand.remove(first_index_of(hand, card)),
        hand_position,
        tricks: tricks_after_play(game, seat, card),
        completion: completion_after_play(game, seat, card),
        events: play_events(game, seat, card),
    }
}

/// Whether the tricks are in a state to take a card.
pub fn is_playable(game: &GameTrickState) -> (ok: bool)
    ensures
        ok == playable(game@),
{
    let trick = &game.current_trick;
    let trump = Suit::parse(trick.trump_suit.as_str());
    trump.is_some() && trick.current_player < 4 && (trick.cards_played.len() == 0
        || trick.lead_suit.is_some()) && !trick.is_complete && trick.cards_played.len() < 4
        && !game.game_complete && game.tricks_won.0 <= 8 && game.tricks_won.1 <= 8
        && game.points_accumulated.0 <= 120 && game.points_accumulated.1 <= 120
        && trick.trick_number >= 1 && trick.trick_number <= 8
}

/// Whether the hand may play the card after the given lead.
pub fn is_legal_play(hand: &Hand, lead_suit: Option<Suit>, card: Card) -> (legal: bool)
    ensures
        legal == may_play(hand.cards@, lead_suit, card),
{
    let playable = hand.get_playable_cards(Suit::Hearts, lead_suit);
    let mut i: usize = 0;
    while i < playable.len()
        invariant
            i <= playable@.len(),
            playable@ == playable_cards(hand.cards@, lead_suit),
            forall|k: int| 0 <= k < i ==> playable@[k] != card,
        decreases playable@.len() - i,
    {
        if playable[i] == card {
            return true;
        }
        i += 1;
    }
    false
}

/// Plays a card for a user.
///
/// The play is refused, with nothing changed, unless the match is in
/// play, the user has a seat and a hand, the seat is on turn, the code
/// denotes a card that the hand holds, and the card follows the lead
/// wherever the hand can. A play that is not refused takes the card from
/// the hand, lays it into the trick, and counts the trick where the card
/// was its fourth: the winner's team gains the trick and its card points,
/// and the winner leads the next trick, or the game is complete after the
/// eighth.
pub fn play_card(
    status: NormalMatchStatus,
    seat: Option<usize>,
    tricks: Option<GameTrickState>,
    hand: Option<Hand>,
    card_code: &str,
) -> (res: Result<PlayOutcome, CommandError>)
    ensures
        res is Err <==> play_refusal(status, seat, opt_tricks(tricks), opt_cards(hand), card_code@)
            is Some,
        res matches Err(e) ==> Some(e@) == play_refusal(
            status,
            seat,
            opt_tricks(tricks),
            opt_cards(hand),
            card_code@,
        ),
        res matches Ok(outcome) ==> outcome@ == play_result(
            tricks->0@,
            hand->0.cards@,
            hand->0.player_position,
            parse_card(card_code@)->0,
        ),
{
    if status != NormalMatchStatus::Playing {
        return Err(CommandError::new(ErrorKind::Conflict, "Game is not in playing phase"));
    }
    let seat = match seat {
        Some(s) => s,
        None => {
            return Err(CommandError::new(ErrorKind::NotFound, "Player not in game"));
        },
    };
    let mut tricks = match tricks {
        Some(t) => t,
        None => {
            return Err(CommandError::new(ErrorKind::NotFound, "No active trick found"));
        },
    };
    if tricks.current_trick.current_player != seat {
        return Err(CommandError::new(ErrorKind::NotYourTurn, "Not your turn to play"));
    }
    let mut hand = match hand {
        Some(h) => h,
        None => {
            return Err(CommandError::new(ErrorKind::NotFound, "Player hand not found"));
        },
    };
    let card = match Card::from_code(card_code) {
        Ok(card) => card,
        Err(complaint) => {
            return Err(
                CommandError::with_message(ErrorKind::IllegalMove, "Invalid card code", complaint),
            );
        },
    };
    if !hand.has_card(&card) {
        return Err(CommandError::new(ErrorKind::IllegalMove, "Card not in hand"));
    }
    if !is_legal_play(&hand, tricks.current_trick.lead_suit, card) {
        return Err(CommandError::new(ErrorKind::IllegalMove, "Illegal card play"));
    }
    if !is_playable(&tricks) {
        return Err(CommandError::new(ErrorKind::Fatal, "Failed to play card"));
    }
    let ghost before = tricks@;
    let game_id = tricks.current_trick.game_id.clone();
    let played = tricks.current_trick.play_card(seat, card);
    assert(played is Ok);
    assert(tricks@ == with_card(before, seat, card));
    hand.remove_card(&card);
    let mut completion: Option<TrickCompletionResult> = None;
    if tricks.current_trick.is_complete {
        proof {
            crate::hand::lemma_total_points_bounds(cards_of(tricks@.current_trick.cards_played));
        }
        match tricks.complete_trick() {
            Ok(report) => {
                completion = Some(report);
            },
            Err(_) => {},
        }
    }
    assert(tricks@ == tricks_after_play(before, seat, card));
    assert(completion == completion_after_play(before, seat, card));
    let mut events: Vec<TrickEvent> = Vec::new();
    events.push(
        TrickEvent::CardPlayed {
            game_id: game_id.clone(),
            player_position: seat as u8,
            card: card.code(),
            trick_number: tricks.current_trick.trick_number,
            cards_in_trick: tricks.current_trick.cards_played.len() as u8,
            next_player: match completion {
                Some(_) => None,
                None => Some(tricks.current_trick.current_player as u8),
            },
            trick_complete: completion.is_some(),
            trick_winner: match completion {
                Some(report) => Some(report.winner as u8),
                None => None,
            },
            points_won: match completion {
                Some(report) => report.points,
                None => 0,
            },
        },
    );
    match completion {
        Some(report) => {
            let filed = tricks.completed_tricks.len() - 1;
            assert(tricks@.completed_tricks.last() == tricks.completed_tricks@[filed as int]@);
            events.push(
                TrickEvent::TrickCompleted {
                    game_id,
                    trick_number: tricks.completed_tricks[filed].trick_number,
                    winner: report.winner as u8,
                    points: report.points,
                    trump_team_score: tricks.points_accumulated.0,
                    opponent_team_score: tricks.points_accumulated.1,
                    game_complete: report.game_complete,
                },
            );
        },
        None => {},
    }
    let outcome = PlayOutcome { seat, card, hand, tricks, completion, events };
    assert(outcome@.events =~= play_events(before, seat, card));
    Ok(outcome)
}

/// Counting a complete trick keeps the tally well formed.
pub proof fn lemma_completion_keeps_well_formed(game: GameTrickView)
    requires
        game.well_formed(),
        game.current_trick.is_complete,
        !game.game_complete,
        game.points_accumulated.0 + game.points_accumulated.1 + game.current_trick.points() <= u8::MAX,
    ensures
        game.after_completion().well_formed(),
{
    let after = game.after_completion();
    let filed = game.completed_tricks.push(game.current_trick);
    assert(filed.drop_last() =~= game.completed_tricks);
    assert(points_in(filed) == points_in(game.completed_tricks) + game.current_trick.points());
    let trick = game.current_trick;
    crate::trick::lemma_best_index_range(
        trick.cards_played,
        trick.trump()->0,
        trick.lead_suit->0,
        3,
    );
    let best = crate::trick::best_index(trick.cards_played, trick.trump()->0, trick.lead_suit->0, 3);
    assert(trick.cards_played[best].0 == (trick.cards_played[0].0 + best) % 4);
    assert(trick.trick_winner->0 < 4);
    crate::hand::lemma_total_points_bounds(cards_of(game.current_trick.cards_played));
    crate::conservation::lemma_points_in_tricks(game.completed_tricks);
    crate::hand::lemma_total_points_bounds(
        crate::conservation::cards_in_tricks(game.completed_tricks),
    );
    assert forall|i: int| 0 <= i < after.completed_tricks.len() implies {
        &&& (#[trigger] after.completed_tricks[i]).well_formed()
        &&& after.completed_tricks[i].is_complete
        &&& after.completed_tricks[i].trick_number == i + 1
        &&& after.completed_tricks[i].trump_suit == after.current_trick.trump_suit
    } by {
        if i < game.completed_tricks.len() {
            assert(after.completed_tricks[i] == game.completed_tricks[i]);
        }
    }
}

/// A play keeps the game sound. Where the cards are conserved and the
/// tally is well formed, a play that is not refused leaves them so: the
/// card has moved from the hand of the seat to the tricks, and the tally
/// is well formed again.
pub proof fn lemma_play_keeps_game_sound(
    hands: Seq<Seq<Card>>,
    game: GameTrickView,
    seat: usize,
    code: Seq<char>,
)
    requires
        conserved(hands, game),
        game.well_formed(),
        seat < 4,
        play_refusal(NormalMatchStatus::Playing, Some(seat), Some(game), Some(hands[seat as int]), code)
            is None,
    ensures
        ({
            let card = parse_card(code)->0;
            let hand = hands[seat as int];
            let after = tricks_after_play(game, seat, card);
            let hands_after = hands.update(seat as int, hand.remove(first_index_of(hand, card)));
            &&& conserved(hands_after, after)
            &&& after.well_formed()
        }),
{
    let card = parse_card(code)->0;
    let hand = hands[seat as int];
    let i = first_index_of(hand, card);
    lemma_first_index_of(hand, card);
    let played = with_card(game, seat, card);
    let hands_after = hands.update(seat as int, hand.remove(i));
    assert(cards_of(played.current_trick.cards_played) =~= cards_of(
        game.current_trick.cards_played,
    ).push(card));
    lemma_play_conserves(hands, game, seat as int, i, played);
    assert(played.current_trick.well_formed()) by {
        let before = game.current_trick;
        let now = played.current_trick;
        assert forall|k: int| 0 <= k < now.cards_played.len() implies (
        #[trigger] now.cards_played[k]).0 == (now.cards_played[0].0 + k) % 4 by {
            if k < before.cards_played.len() {
                assert(now.cards_played[k] == before.cards_played[k]);
            }
        }
    }
    assert(played.well_formed());
    if played.current_trick.is_complete {
        lemma_points_bounded(hands_after, played);
        lemma_completion_conserves(hands_after, played);
        lemma_completion_keeps_well_formed(played);
    }
}

/// What follows a play: the writes to make, the answer to the player, and
/// whether the game is over and is scored next.
#[derive(Debug)]
pub struct PlayFollowUp {
    /// The writes, in this order.
    pub plan: Vec<StoreStep>,
    /// The answer to the player.
    pub response: CardPlayResponse,
    /// Whether the eighth trick is over, so that the game is scored.
    pub completes_game: bool,
}

/// The writes after a play: the hand of the player, the trick for the
/// history where the card completed one, and then the tricks.
pub open spec fn play_plan(completed: bool) -> Seq<StoreStep> {
    if completed {
        seq![StoreStep::WriteHand, StoreStep::WriteTrickHistory, StoreStep::WriteTrickState]
    } else {
        seq![StoreStep::WriteHand, StoreStep::WriteTrickState]
    }
}

/// The words of the answer to a play: that the game is complete, that a
/// trick is complete and which, or that the card was played.
pub open spec fn play_message(completion: Option<TrickCompletionResult>, tricks_done: nat) -> Seq<
    char,
> {
    match completion {
        Some(report) => if report.game_complete {
            "Card played - Game complete!"@
        } else {
            "Card played - Trick "@ + decimal(tricks_done) + " complete!"@
        },
        None => "Card played successfully"@,
    }
}

/// Says what follows a play that was accepted: what is written and in
/// which order, what the player is told, and whether the game is scored
/// now, which is so exactly when the tricks say that the game is complete.
pub fn after_play(game_id: &str, outcome: &PlayOutcome) -> (next: PlayFollowUp)
    ensures
        next.plan@ == play_plan(outcome@.completion is Some),
        next.response.message@ == play_message(
            outcome@.completion,
            outcome@.tricks.completed_tricks.len(),
        ),
        next.response.game_id@ == game_id@,
        next.response.card_played@ == card_code(outcome.card),
        next.response.player_position == seat_byte(outcome.seat),
        next.response.trick_info == trick_info_of(outcome@.tricks),
        next.completes_game == outcome@.tricks.game_complete,
{
    let mut plan: Vec<StoreStep> = Vec::new();
    plan.push(StoreStep::WriteHand);
    if outcome.completion.is_some() {
        plan.push(StoreStep::WriteTrickHistory);
    }
    plan.push(StoreStep::WriteTrickState);
    assert(plan@ =~= play_plan(outcome@.completion is Some));
    let message = match outcome.completion {
        Some(report) => {
            if report.game_complete {
                String::from_str("Card played - Game complete!")
            } else {
                let mut words = String::from_str("Card played - Trick ");
                let number = format_u64(outcome.tricks.completed_tricks.len() as u64);
                words.append(number.as_str());
                words.append(" complete!");
                words
            }
        },
        None => String::from_str("Card played successfully"),
    };
    PlayFollowUp {
        plan,
        response: CardPlayResponse {
            message,
            game_id: String::from_str(game_id),
            card_played: outcome.card.code(),
            player_position: seat_to_byte(outcome.seat),
            trick_info: GameTrickInfo::of(&outcome.tricks),
        },
        completes_game: outcome.tricks.game_complete,
    }
}

} // verus!
