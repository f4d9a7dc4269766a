//! The commands of bidding: making a bid and passing.

use crate::card::{suit_of_name, Card, Suit};
use crate::commands::{
    announcement_views, Announcement, AnnouncementView, EventKind, StoreStep,
};
use crate::deck::{count_trumps, fresh_deck, is_deal_of, some_hand_can_bid, Deck};
use crate::errors::{plain_error, worded_error, CommandError, ErrorKind, ErrorView};
use crate::hand::Hand;
use crate::normal_match::{MatchView, NormalMatch, NormalMatchStatus};
use crate::partnership::{determine_partner, hand_views, partner_of};
use crate::players::{text_views, user_ids, Roster};
use crate::schemas::{
    info_views, seat_byte, seat_to_byte, BidDetails, BidResponse, BiddingGameState, PassResponse,
};
use crate::trick::{GameTrickState, GameTrickView, TrickView};
use vstd::prelude::*;
use vstd::string::*;

verus! {

/// What an accepted bid has brought.
#[derive(Debug)]
pub struct BidOutcome {
    /// The match with the bid recorded.
    pub game: NormalMatch,
    /// The seat that bid.
    pub seat: usize,
    /// The writes to the store, in order.
    pub plan: Vec<StoreStep>,
    /// The events to publish, in order.
    pub events: Vec<Announcement>,
    /// The answer to the bidder.
    pub response: BidResponse,
}

/// What a pass has led to.
#[derive(Debug, Clone, Copy, PartialEq, Eq, Structural)]
pub enum PassKind {
    /// Bidding goes on with the next seat.
    Continue,
    /// All four seats passed without a bid; the cards were dealt anew.
    Redeal,
    /// Three seats passed after a bid; play begins.
    BiddingComplete,
}

/// What an accepted pass has brought.
#[derive(Debug)]
pub struct PassOutcome {
    /// The match after the pass.
    pub game: NormalMatch,
    /// The seat that passed.
    pub seat: usize,
    /// What the pass has led to.
    pub kind: PassKind,
    /// The new hands, where the cards were dealt anew.
    pub hands: Option<[Vec<Card>; 4]>,
    /// The partner of the declarer, where bidding is complete.
    pub partner: Option<usize>,
    /// The tricks of the game that begins, where bidding is complete.
    pub tricks: Option<GameTrickState>,
    /// The writes to the store, in order.
    pub plan: Vec<StoreStep>,
    /// The events to publish, in order.
    pub events: Vec<Announcement>,
    /// The answer to the seat that passed.
    pub response: PassResponse,
}

/// A match, where there is one, as plain values.
pub open spec fn opt_match(game: Option<NormalMatch>) -> Option<MatchView> {
    match game {
        Some(g) => Some(g@),
        None => None,
    }
}

/// Why a bid is refused, if it is. In this order: the match is unknown;
/// the user has no seat; the seat has no hand; it is not the seat's turn;
/// the bid is against the rules of bidding; the hand does not hold as many
/// trumps of the suit as the bid says.
pub open spec fn bid_command_refusal(
    game: Option<MatchView>,
    seat: Option<usize>,
    hand: Option<Seq<Card>>,
    length: u8,
    suit: Seq<char>,
) -> Option<ErrorView> {
    if game is None {
        Some(plain_error(ErrorKind::NotFound, "Game not found"@))
    } else if seat is None {
        Some(plain_error(ErrorKind::NotFound, "Player not in game"@))
    } else if hand is None {
        Some(plain_error(ErrorKind::NotFound, "Hand not found"@))
    } else if !game->0.turn_to_bid(seat->0) {
        Some(plain_error(ErrorKind::NotYourTurn, "Not your turn to bid"@))
    } else if game->0.bid_refusal(seat->0, length, suit) is Some {
        Some(
            worded_error(
                ErrorKind::IllegalMove,
                "Invalid bid"@,
                game->0.bid_refusal(seat->0, length, suit)->0,
            ),
        )
    } else if suit_of_name(suit) is None || count_trumps(hand->0, suit_of_name(suit)->0) < length {
        Some(plain_error(ErrorKind::IllegalMove, "Insufficient trumps"@))
    } else {
        None
    }
}

/// The event that tells of a bid.
pub open spec fn bid_made_event(game: MatchView, players: Seq<Seq<char>>) -> AnnouncementView {
    AnnouncementView {
        kind: EventKind::BidMade,
        game_id: game.id,
        affected_players: players,
        message: "Bid made"@,
    }
}

/// Makes a bid for a user.
///
/// The bid is refused, with nothing changed, unless the match is known,
/// the user has a seat and a hand, the seat is on turn, the bid is legal
/// by the rules of bidding, and the hand holds as many trumps of the suit
/// as the bid says. An accepted bid becomes the highest, and the turn
/// passes to the next seat.
pub fn make_bid(
    game: Option<NormalMatch>,
    seat: Option<usize>,
    roster: &Roster,
    hand: Option<&Hand>,
    length: u8,
    suit: &str,
) -> (res: Result<BidOutcome, CommandError>)
    requires
        hand matches Some(h) ==> h.cards@.len() <= u8::MAX,
    ensures
        res is Err <==> bid_command_refusal(
            opt_match(game),
            seat,
            match hand {
                Some(h) => Some(h.cards@),
                None => None,
            },
            length,
            suit@,
        ) is Some,
        res matches Err(e) ==> Some(e@) == bid_command_refusal(
            opt_match(game),
            seat,
            match hand {
                Some(h) => Some(h.cards@),
                None => None,
            },
            length,
            suit@,
        ),
        res matches Ok(outcome) ==> {
            &&& outcome.game@ == game->0@.after_bid(seat->0, length, suit@)
            &&& outcome.seat == seat->0
            &&& outcome.plan@ == seq![StoreStep::WriteMatch]
            &&& announcement_views(outcome.events@) == seq![
                bid_made_event(game->0@, user_ids(roster@)),
            ]
            &&& outcome.response.message@ == "Bid made successfully"@
            &&& outcome.response.game_id@ == game->0@.id
            &&& outcome.response.bidder_position == seat_byte(seat->0)
            &&& outcome.response.bid.shows(length, suit@)
            &&& !outcome.response.bidding_complete
            &&& outcome.response.game_state.shows(outcome.game@, roster@)
        },
{
    let mut game = match game {
        Some(g) => g,
        None => {
            return Err(CommandError::new(ErrorKind::NotFound, "Game not found"));
        },
    };
    let seat = match seat {
        Some(s) => s,
        None => {
            return Err(CommandError::new(ErrorKind::NotFound, "Player not in game"));
        },
    };
    let hand = match hand {
        Some(h) => h,
        None => {
            return Err(CommandError::new(ErrorKind::NotFound, "Hand not found"));
        },
    };
    if !game.is_player_turn_to_bid(seat) {
        return Err(CommandError::new(ErrorKind::NotYourTurn, "Not your turn to bid"));
    }
    match game.is_valid_bid(seat, length, suit) {
        Err(why) => {
            return Err(CommandError::with_message(ErrorKind::IllegalMove, "Invalid bid", why));
        },
        Ok(()) => {},
    }
    let held = match Suit::from_name(suit) {
        Some(trump) => {
            let counts = Deck::calculate_trump_counts(hand.cards.as_slice());
            assert(Suit::spec_at(trump.spec_index()) == trump);
            counts[trump.index()]
        },
        None => 0,
    };
    if Suit::from_name(suit).is_none() || held < length {
        return Err(CommandError::new(ErrorKind::IllegalMove, "Insufficient trumps"));
    }
    let ghost before = game@;
    let made = game.make_bid(seat, length, String::from_str(suit));
    assert(made is Ok);
    let mut plan: Vec<StoreStep> = Vec::new();
    plan.push(StoreStep::WriteMatch);
    let mut events: Vec<Announcement> = Vec::new();
    events.push(Announcement::new(EventKind::BidMade, game.id.as_str(), roster.user_ids(), "Bid made"));
    let response = BidResponse {
        message: String::from_str("Bid made successfully"),
        game_id: game.id.clone(),
        bidder_position: seat_to_byte(seat),
        bid: BidDetails::of(length, suit),
        game_state: BiddingGameState::of(&game, roster),
        bidding_complete: false,
    };
    assert(plan@ =~= seq![StoreStep::WriteMatch]);
    assert(announcement_views(events@) =~= seq![bid_made_event(before, user_ids(roster@))]);
    Ok(BidOutcome { game, seat, plan, events, response })
}

/// What a pass leads to.
pub open spec fn pass_kind(game: MatchView, seat: usize) -> PassKind {
    if game.pass_ends_in_redeal(seat) {
        PassKind::Redeal
    } else if game.pass_completes_bidding(seat) {
        PassKind::BiddingComplete
    } else {
        PassKind::Continue
    }
}

/// The match after a pass: the turn has passed on; after a redeal the
/// match has gone through dealing and is back in bidding with the seat to
/// the left of the dealer on turn and no bid; after the third pass on a
/// bid the match is in play.
pub open spec fn game_after_pass(game: MatchView, seat: usize) -> MatchView {
    let passed = game.after_pass(seat);
    match pass_kind(game, seat) {
        PassKind::Redeal => passed.after_reset_for_redeal().after_start_bidding(),
        PassKind::BiddingComplete => passed.after_finish_bidding(),
        PassKind::Continue => passed,
    }
}

/// Why a pass is refused, if it is. In this order: the match is unknown;
/// the user has no seat; it is not the seat's turn. A pass that calls for
/// a redeal fails where no deal could be found. A pass that ends bidding
/// fails where the match holds no bid to end with, where its suit or its
/// bidder is not of this game, where no seat at the table is set to lead,
/// and where the hands are missing.
pub open spec fn pass_refusal(
    game: Option<MatchView>,
    seat: Option<usize>,
    hands_known: bool,
    deal_found: bool,
) -> Option<ErrorView> {
    if game is None {
        Some(plain_error(ErrorKind::NotFound, "Game not found"@))
    } else if seat is None {
        Some(plain_error(ErrorKind::NotFound, "Player not in game"@))
    } else if !game->0.turn_to_bid(seat->0) {
        Some(plain_error(ErrorKind::NotYourTurn, "Not your turn to bid"@))
    } else {
        match pass_kind(game->0, seat->0) {
            PassKind::Continue => None,
            PassKind::Redeal => if deal_found {
                None
            } else {
                Some(plain_error(ErrorKind::Fatal, "Unable to deal valid hands"@))
            },
            PassKind::BiddingComplete => {
                let after = game_after_pass(game->0, seat->0);
                if !game->0.has_winning_bid() {
                    Some(plain_error(ErrorKind::Fatal, "Failed to complete bidding"@))
                } else if suit_of_name(game->0.highest_bid_suit->0) is None {
                    Some(plain_error(ErrorKind::Fatal, "Invalid trump suit"@))
                } else if game->0.highest_bidder->0 >= 4 {
                    Some(plain_error(ErrorKind::Fatal, "Invalid trump declarer"@))
                } else if after.current_leader is None || after.current_leader->0 >= 4 {
                    Some(plain_error(ErrorKind::Fatal, "Current leader must be set to start tricks"@))
                } else if !hands_known {
                    Some(plain_error(ErrorKind::NotFound, "Hands not found"@))
                } else {
                    None
                }
            },
        }
    }
}

/// The writes of a pass: after a redeal the old hands go before the new
/// ones come, and the record of the match is written last; when bidding is
/// complete the record of the match is followed by the tricks.
pub open spec fn pass_plan(kind: PassKind) -> Seq<StoreStep> {
    match kind {
        PassKind::Continue => seq![StoreStep::WriteMatch],
        PassKind::Redeal => seq![StoreStep::ClearHands, StoreStep::WriteHands, StoreStep::WriteMatch],
        PassKind::BiddingComplete => seq![StoreStep::WriteMatch, StoreStep::WriteTrickState],
    }
}

/// The kind of event that tells of a pass.
pub open spec fn pass_event_kind(kind: PassKind) -> EventKind {
    match kind {
        PassKind::Continue => EventKind::PassMade,
        PassKind::Redeal => EventKind::Redeal,
        PassKind::BiddingComplete => EventKind::BiddingComplete,
    }
}

/// The words that go with a pass.
pub open spec fn pass_message(kind: PassKind) -> Seq<char> {
    match kind {
        PassKind::Continue => "Pass recorded"@,
        PassKind::Redeal => "All players passed - cards redealt"@,
        PassKind::BiddingComplete => "Bidding complete - game started"@,
    }
}

/// The tricks at the start of play: the first trick, led by the seat to
/// the left of the dealer, with the suit of the winning bid as trump and
/// the declarer and the partner as the trump team.
pub open spec fn first_tricks(after: MatchView, partner: usize) -> GameTrickView {
    GameTrickView {
        current_trick: TrickView {
            trick_number: 1,
            lead_suit: None,
            cards_played: Seq::empty(),
            current_player: after.current_leader->0,
            trick_winner: None,
            is_complete: false,
            game_id: after.id,
            trump_suit: after.trump_suit->0,
        },
        tricks_won: (0, 0),
        points_accumulated: (0, 0),
        completed_tricks: Seq::empty(),
        trump_team: (after.trump_declarer->0, partner),
        game_complete: false,
    }
}

/// Passes for a user, with the deal to use should the pass call for a
/// redeal.
///
/// The pass is refused, with nothing changed, unless the match is known,
/// the user has a seat and the seat is on turn. A pass hands the turn to
/// the next seat. The fourth pass without a bid calls for a redeal: the
/// bidding is cleared, the new hands replace the old, and bidding starts
/// again with the seat to the left of the same dealer. The third pass
/// after a bid ends bidding: the suit of the highest bid becomes trump,
/// its bidder the declarer, the partner is found from the hands, and the
/// first trick waits for the seat to the left of the dealer.
pub fn pass_bid_with_deal(
    game: Option<NormalMatch>,
    seat: Option<usize>,
    roster: &Roster,
    hands: Option<&[Vec<Card>; 4]>,
    deal: Option<[Vec<Card>; 4]>,
) -> (res: Result<PassOutcome, CommandError>)
    ensures
        res is Err <==> pass_refusal(opt_match(game), seat, hands is Some, deal is Some) is Some,
        res matches Err(e) ==> Some(e@) == pass_refusal(
            opt_match(game),
            seat,
            hands is Some,
            deal is Some,
        ),
        res matches Ok(outcome) ==> {
            let before = game->0@;
            let kind = pass_kind(before, seat->0);
            &&& outcome.seat == seat->0
            &&& outcome.kind == kind
            &&& outcome.game@ == game_after_pass(before, seat->0)
            &&& outcome.plan@ == pass_plan(kind)
            &&& outcome.events@.len() == 1
            &&& outcome.events@[0]@ == (AnnouncementView {
                kind: pass_event_kind(kind),
                game_id: before.id,
                affected_players: user_ids(roster@),
                message: pass_message(kind),
            })
            &&& outcome.hands is Some <==> kind == PassKind::Redeal
            &&& kind == PassKind::Redeal ==> outcome.hands == deal
            &&& outcome.tricks is Some <==> kind == PassKind::BiddingComplete
            &&& outcome.partner is Some <==> kind == PassKind::BiddingComplete
            &&& kind == PassKind::BiddingComplete ==> {
                &&& outcome.partner->0 == partner_of(hand_views(hands->0@), before.highest_bidder->0)
                &&& outcome.tricks->0@ == first_tricks(outcome.game@, outcome.partner->0)
                &&& outcome.tricks->0@.well_formed()
            }
            &&& outcome.response.all_passed == (kind == PassKind::Redeal)
            &&& outcome.response.bidding_complete == (kind == PassKind::BiddingComplete)
            &&& outcome.response.message@ == pass_message(kind)
            &&& outcome.response.passer_position == seat_byte(seat->0)
            &&& outcome.response.game_id@ == before.id
            &&& outcome.response.game_state.shows(outcome.game@, roster@)
        },
{
    let mut game = match game {
        Some(g) => g,
        None => {
            return Err(CommandError::new(ErrorKind::NotFound, "Game not found"));
        },
    };
    let seat = match seat {
        Some(s) => s,
        None => {
            return Err(CommandError::new(ErrorKind::NotFound, "Player not in game"));
        },
    };
    let ghost before = game@;
    let (all_passed, bidding_complete) = match game.make_pass(seat) {
        Ok(answer) => answer,
        Err(_) => {
            return Err(CommandError::new(ErrorKind::NotYourTurn, "Not your turn to bid"));
        },
    };
    let mut new_hands: Option<[Vec<Card>; 4]> = None;
    let mut partner: Option<usize> = None;
    let mut tricks: Option<GameTrickState> = None;
    let mut plan: Vec<StoreStep> = Vec::new();
    let kind = if all_passed {
        match deal {
            Some(dealt) => {
                new_hands = Some(dealt);
            },
            None => {
                return Err(CommandError::new(ErrorKind::Fatal, "Unable to deal valid hands"));
            },
        }
        game.reset_for_redeal();
        game.start_bidding();
        plan.push(StoreStep::ClearHands);
        plan.push(StoreStep::WriteHands);
        plan.push(StoreStep::WriteMatch);
        PassKind::Redeal
    } else if bidding_complete {
        let (trump_name, declarer) = match game.finish_bidding() {
            Ok(bid) => (bid.1, bid.2),
            Err(_) => {
                return Err(CommandError::new(ErrorKind::Fatal, "Failed to complete bidding"));
            },
        };
        if Suit::from_name(trump_name.as_str()).is_none() {
            return Err(CommandError::new(ErrorKind::Fatal, "Invalid trump suit"));
        }
        if declarer >= 4 {
            return Err(CommandError::new(ErrorKind::Fatal, "Invalid trump declarer"));
        }
        let leader = match game.current_leader {
            Some(l) => l,
            None => 4,
        };
        if leader >= 4 {
            return Err(
                CommandError::new(ErrorKind::Fatal, "Current leader must be set to start tricks"),
            );
        }
        let hands = match hands {
            Some(h) => h,
            None => {
                return Err(CommandError::new(ErrorKind::NotFound, "Hands not found"));
            },
        };
        let found = determine_partner(hands, declarer);
        partner = Some(found);
        proof {
            lemma_name_is_text(trump_name@);
        }
        tricks = Some(GameTrickState::new(game.id.clone(), leader, trump_name, (declarer, found)));
        plan.push(StoreStep::WriteMatch);
        plan.push(StoreStep::WriteTrickState);
        PassKind::BiddingComplete
    } else {
        plan.push(StoreStep::WriteMatch);
        PassKind::Continue
    };
    assert(plan@ =~= pass_plan(kind));
    let words = match kind {
        PassKind::Continue => "Pass recorded",
        PassKind::Redeal => "All players passed - cards redealt",
        PassKind::BiddingComplete => "Bidding complete - game started",
    };
    let event_kind = match kind {
        PassKind::Continue => EventKind::PassMade,
        PassKind::Redeal => EventKind::Redeal,
        PassKind::BiddingComplete => EventKind::BiddingComplete,
    };
    let mut events: Vec<Announcement> = Vec::new();
    events.push(Announcement::new(event_kind, game.id.as_str(), roster.user_ids(), words));
    let response = PassResponse {
        message: String::from_str(words),
        game_id: game.id.clone(),
        passer_position: seat_to_byte(seat),
        game_state: BiddingGameState::of(&game, roster),
        all_passed,
        bidding_complete,
    };
    Ok(PassOutcome { game, seat, kind, hands: new_hands, partner, tricks, plan, events, response })
}

/// Passes for a user. Where the pass calls for a redeal, a fresh deck is
/// shuffled and dealt until somebody can bid.
///
/// Chance decides the new hands and whether any are found, so the answer
/// is that of [`pass_bid_with_deal`] for some outcome of the dealing; the
/// hands that come back are a deal of the whole deck on which somebody can
/// bid.
pub fn pass_bid(
    game: Option<NormalMatch>,
    seat: Option<usize>,
    roster: &Roster,
    hands: Option<&[Vec<Card>; 4]>,
) -> (res: Result<PassOutcome, CommandError>)
    ensures
        res matches Err(e) ==> exists|deal_found: bool|
            Some(e@) == #[trigger] pass_refusal(opt_match(game), seat, hands is Some, deal_found),
        res matches Ok(outcome) ==> {
            let before = game->0@;
            let kind = pass_kind(before, seat->0);
            &&& pass_refusal(opt_match(game), seat, hands is Some, true) is None
            &&& outcome.seat == seat->0
            &&& outcome.kind == kind
            &&& outcome.game@ == game_after_pass(before, seat->0)
            &&& outcome.plan@ == pass_plan(kind)
            &&& outcome.hands is Some <==> kind == PassKind::Redeal
            &&& outcome.hands matches Some(dealt) ==> {
                &&& some_hand_can_bid(dealt@)
                &&& exists|cards: Seq<Card>|
                    cards.to_multiset() == fresh_deck().to_multiset() && #[trigger] is_deal_of(
                        dealt@,
                        cards,
                    )
            }
            &&& outcome.tricks is Some <==> kind == PassKind::BiddingComplete
            &&& outcome.partner is Some <==> kind == PassKind::BiddingComplete
            &&& kind == PassKind::BiddingComplete ==> {
                &&& outcome.partner == Some(
                    partner_of(hand_views(hands->0@), before.highest_bidder->0),
                )
                &&& outcome.tricks->0@ == first_tricks(outcome.game@, outcome.partner->0)
                &&& outcome.tricks->0@.well_formed()
            }
            &&& outcome.events@.len() == 1
            &&& outcome.events@[0]@ == (AnnouncementView {
                kind: pass_event_kind(kind),
                game_id: before.id,
                affected_players: user_ids(roster@),
                message: pass_message(kind),
            })
            &&& outcome.response.all_passed == (kind == PassKind::Redeal)
            &&& outcome.response.bidding_complete == (kind == PassKind::BiddingComplete)
            &&& outcome.response.message@ == pass_message(kind)
            &&& outcome.response.passer_position == seat_byte(seat->0)
            &&& outcome.response.game_id@ == before.id
            &&& outcome.response.game_state.shows(outcome.game@, roster@)
        },
{
    let redeal = match (&game, seat) {
        (Some(g), Some(s)) => g.is_player_turn_to_bid(s) && g.highest_bidder.is_none()
            && match g.dealer_position {
            Some(dealer) => crate::normal_match::seat_after(s) == crate::normal_match::seat_after(
                dealer,
            ),
            None => false,
        },
        _ => false,
    };
    let deal = if redeal {
        Deck::deal_until_valid()
    } else {
        None
    };
    let ghost deal_found = deal is Some;
    let res = pass_bid_with_deal(game, seat, roster, hands, deal);
    proof {
        if res is Err {
            assert(Some(res->Err_0@) == pass_refusal(opt_match(game), seat, hands is Some, deal_found));
        }
    }
    res
}

/// A wire name of a suit is also a text that names the suit.
pub proof fn lemma_name_is_text(name: Seq<char>)
    requires
        suit_of_name(name) is Some,
    ensures
        crate::card::suit_of_text(name) == suit_of_name(name),
{
    reveal_strlit("hearts");
    reveal_strlit("diamonds");
    reveal_strlit("clubs");
    reveal_strlit("spades");
    reveal_strlit("h");
    reveal_strlit("d");
    reveal_strlit("c");
    reveal_strlit("s");
    let lower = name;
    assert(crate::text::matches_ignoring_case(name, name));
    if name == "diamonds"@ {
        assert(!crate::text::same_letter(name[0], "hearts"@[0]));
    } else if name == "clubs"@ {
        assert(!crate::text::same_letter(name[0], "hearts"@[0]));
    } else if name == "spades"@ {
        assert(!crate::text::same_letter(name[0], "hearts"@[0]));
        assert(!crate::text::same_letter(name[0], "diamonds"@[0]));
        assert(!crate::text::same_letter(name[0], "clubs"@[0]));
    }
}

} // verus!
