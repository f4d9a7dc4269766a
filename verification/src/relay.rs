//! Events that a client hands to the server to pass on to the players of
//! its match: what the players are told, in which words, and who of them
//! is reached on this instance.

use crate::normal_match::{next_seat, opposite_seat, seat_across, seat_after};
use crate::players::{text_views, user_ids, PlayerView, Roster};
use crate::pubsub::{common, Registry};
use crate::session::InboundEvent;
use crate::snapshot::{name_at, Directory};
use crate::text::{decimal, format_u64};
use vstd::prelude::*;
use vstd::string::*;

verus! {

/// What the players are told of an event that a client passed on.
#[derive(Debug)]
pub struct Relay {
    /// The name of the event as the players see it.
    pub event: String,
    /// The phase that the event belongs to.
    pub phase: String,
    /// The event in words.
    pub message: String,
    /// The players to tell: those that are connected to this instance.
    pub targets: Vec<String>,
}

/// The name under which an event is passed on; events that are not passed
/// on have none.
pub open spec fn relay_name(event: InboundEvent) -> Option<Seq<char>> {
    match event {
        InboundEvent::BidMade => Some("bid_made"@),
        InboundEvent::PassMade => Some("pass_made"@),
        InboundEvent::Redeal => Some("cards_redealt"@),
        InboundEvent::BiddingComplete => Some("bidding_complete"@),
        InboundEvent::HandUpdate => Some("hand_updated"@),
        InboundEvent::GameStateUpdate => Some("game_state_updated"@),
        _ => None,
    }
}

/// The words for a bid.
pub open spec fn bid_words(bidder: Seq<char>, length: u8, suit: Seq<char>) -> Seq<char> {
    bidder + " bid "@ + decimal(length as nat) + " "@ + suit + " trumps"@
}

/// The words for a pass: that the cards are dealt anew where all have
/// passed, that bidding is over where it is, and else who bids next.
pub open spec fn pass_words(
    passer: Seq<char>,
    next: Seq<char>,
    all_passed: bool,
    bidding_complete: bool,
) -> Seq<char> {
    if all_passed {
        passer + " passed - All players passed, redealing cards..."@
    } else if bidding_complete {
        passer + " passed - Bidding complete!"@
    } else {
        passer + " passed - "@ + next + " to bid"@
    }
}

/// The words for a redeal.
pub open spec fn redeal_words(dealer: Seq<char>, first: Seq<char>) -> Seq<char> {
    "Cards redealt! "@ + dealer + " dealing, "@ + first + " to bid first"@
}

/// The words for the end of bidding.
pub open spec fn bidding_complete_words(
    declarer: Seq<char>,
    length: u8,
    suit: Seq<char>,
    partner: Seq<char>,
    left: Seq<char>,
    right: Seq<char>,
) -> Seq<char> {
    declarer + " wins bidding with "@ + decimal(length as nat) + " "@ + suit
        + " trumps! Partnership: "@ + declarer + " & "@ + partner + " vs "@ + left + " & "@ + right
}

/// The two opponents of a declarer and a partner, in the order of the
/// table after the declarer. Where the partner is none of the three other
/// seats, the seats beside the declarer.
pub open spec fn opponents_of(declarer: usize, partner: usize) -> (usize, usize) {
    let left = next_seat(declarer);
    let across = opposite_seat(declarer);
    let right = next_seat(across);
    if partner == left {
        (across, right)
    } else if partner == right {
        (left, across)
    } else {
        (left, right)
    }
}

/// The two opponents of a declarer and a partner.
pub fn opponent_seats(declarer: usize, partner: usize) -> (seats: (usize, usize))
    ensures
        seats == opponents_of(declarer, partner),
{
    let left = seat_after(declarer);
    let across = seat_across(declarer);
    let right = seat_after(across);
    if partner == left {
        (across, right)
    } else if partner == right {
        (left, across)
    } else {
        (left, right)
    }
}

/// What a client may pass on to the players of its match.
#[derive(Debug)]
pub enum RelayRequest {
    /// A seat has bid; another seat is on turn.
    BidMade { bidder: usize, length: u8, suit: String, current_bidder: usize },
    /// A seat has passed; another seat is on turn.
    PassMade { passer: usize, current_bidder: usize, all_passed: bool, bidding_complete: bool },
    /// The cards were dealt anew.
    Redeal { dealer: usize, current_bidder: usize },
    /// Bidding is over; the partner is the seat across where none is
    /// given.
    BiddingComplete { declarer: usize, length: u8, suit: String, partner: Option<usize> },
    /// The hand of one player has changed.
    HandUpdate { player_id: String },
    /// The state of the match has changed.
    GameStateUpdate,
}

/// A request to pass on as plain values.
pub enum RelayRequestView {
    BidMade { bidder: usize, length: u8, suit: Seq<char>, current_bidder: usize },
    PassMade { passer: usize, current_bidder: usize, all_passed: bool, bidding_complete: bool },
    Redeal { dealer: usize, current_bidder: usize },
    BiddingComplete { declarer: usize, length: u8, suit: Seq<char>, partner: Option<usize> },
    HandUpdate { player_id: Seq<char> },
    GameStateUpdate,
}

impl View for RelayRequest {
    type V = RelayRequestView;

    open spec fn view(&self) -> RelayRequestView {
        match self {
            RelayRequest::BidMade { bidder, length, suit, current_bidder } => RelayRequestView::BidMade {
                bidder: *bidder,
                length: *length,
                suit: suit@,
                current_bidder: *current_bidder,
            },
            RelayRequest::PassMade {
                passer,
                current_bidder,
                all_passed,
                bidding_complete,
            } => RelayRequestView::PassMade {
                passer: *passer,
                current_bidder: *current_bidder,
                all_passed: *all_passed,
                bidding_complete: *bidding_complete,
            },
            RelayRequest::Redeal { dealer, current_bidder } => RelayRequestView::Redeal {
                dealer: *dealer,
                current_bidder: *current_bidder,
            },
            RelayRequest::BiddingComplete {
                declarer,
                length,
                suit,
                partner,
            } => RelayRequestView::BiddingComplete {
                declarer: *declarer,
                length: *length,
                suit: suit@,
                partner: *partner,
            },
            RelayRequest::HandUpdate { player_id } => RelayRequestView::HandUpdate {
                player_id: player_id@,
            },
            RelayRequest::GameStateUpdate => RelayRequestView::GameStateUpdate,
        }
    }
}

impl RelayRequestView {
    /// The event that the request passes on.
    pub open spec fn event(self) -> InboundEvent {
        match self {
            RelayRequestView::BidMade { .. } => InboundEvent::BidMade,
            RelayRequestView::PassMade { .. } => InboundEvent::PassMade,
            RelayRequestView::Redeal { .. } => InboundEvent::Redeal,
            RelayRequestView::BiddingComplete { .. } => InboundEvent::BiddingComplete,
            RelayRequestView::HandUpdate { .. } => InboundEvent::HandUpdate,
            RelayRequestView::GameStateUpdate => InboundEvent::GameStateUpdate,
        }
    }

    /// Why the request is not passed on, if it is not: the seat that bid
    /// or passed is not taken.
    pub open spec fn refusal(self, players: Seq<PlayerView>) -> Option<Seq<char>> {
        match self {
            RelayRequestView::BidMade { bidder, .. } => if bidder >= players.len() {
                Some("Invalid bidder position"@)
            } else {
                None
            },
            RelayRequestView::PassMade { passer, .. } => if passer >= players.len() {
                Some("Invalid passer position"@)
            } else {
                None
            },
            _ => None,
        }
    }

    /// The event in words, with the names of the players.
    pub open spec fn words(self, players: Seq<PlayerView>, names: Seq<(String, String)>) -> Seq<char> {
        match self {
            RelayRequestView::BidMade { bidder, length, suit, .. } => bid_words(
                name_at(names, players, bidder as int),
                length,
                suit,
            ),
            RelayRequestView::PassMade {
                passer,
                current_bidder,
                all_passed,
                bidding_complete,
            } => pass_words(
                name_at(names, players, passer as int),
                name_at(names, players, current_bidder as int),
                all_passed,
                bidding_complete,
            ),
            RelayRequestView::Redeal { dealer, current_bidder } => redeal_words(
                name_at(names, players, dealer as int),
                name_at(names, players, current_bidder as int),
            ),
            RelayRequestView::BiddingComplete { declarer, length, suit, partner } => {
                let with = match partner {
                    Some(p) => p,
                    None => opposite_seat(declarer),
                };
                bidding_complete_words(
                    name_at(names, players, declarer as int),
                    length,
                    suit,
                    name_at(names, players, with as int),
                    name_at(names, players, opponents_of(declarer, with).0 as int),
                    name_at(names, players, opponents_of(declarer, with).1 as int),
                )
            },
            RelayRequestView::HandUpdate { .. } => "Your hand has been updated"@,
            RelayRequestView::GameStateUpdate => "Game state updated"@,
        }
    }

    /// The players that the event is for: the one whose hand has changed,
    /// or all players of the match.
    pub open spec fn audience(self, players: Seq<PlayerView>) -> Seq<Seq<char>> {
        match self {
            RelayRequestView::HandUpdate { player_id } => seq![player_id],
            _ => user_ids(players),
        }
    }
}

/// Builds the words for a bid.
fn bid_text(bidder: String, length: u8, suit: &str) -> (text: String)
    ensures
        text@ == bid_words(bidder@, length, suit@),
{
    let mut text = bidder;
    text.append(" bid ");
    let n = format_u64(length as u64);
    text.append(n.as_str());
    text.append(" ");
    text.append(suit);
    text.append(" trumps");
    text
}

/// Builds the words for a pass.
fn pass_text(passer: String, next: String, all_passed: bool, bidding_complete: bool) -> (text: String)
    ensures
        text@ == pass_words(passer@, next@, all_passed, bidding_complete),
{
    let mut text = passer;
    if all_passed {
        text.append(" passed - All players passed, redealing cards...");
    } else if bidding_complete {
        text.append(" passed - Bidding complete!");
    } else {
        text.append(" passed - ");
        text.append(next.as_str());
        text.append(" to bid");
    }
    text
}

/// Builds the words for a redeal.
fn redeal_text(dealer: String, first: String) -> (text: String)
    ensures
        text@ == redeal_words(dealer@, first@),
{
    let mut text = String::from_str("Cards redealt! ");
    text.append(dealer.as_str());
    text.append(" dealing, ");
    text.append(first.as_str());
    text.append(" to bid first");
    text
}

/// Builds the words for the end of bidding.
fn bidding_complete_text(
    declarer: String,
    length: u8,
    suit: &str,
    partner: String,
    left: String,
    right: String,
) -> (text: String)
    ensures
        text@ == bidding_complete_words(declarer@, length, suit@, partner@, left@, right@),
{
    let mut text = declarer.clone();
    text.append(" wins bidding with ");
    let n = format_u64(length as u64);
    text.append(n.as_str());
    text.append(" ");
    text.append(suit);
    text.append(" trumps! Partnership: ");
    text.append(declarer.as_str());
    text.append(" & ");
    text.append(partner.as_str());
    text.append(" vs ");
    text.append(left.as_str());
    text.append(" & ");
    text.append(right.as_str());
    text
}

/// The name under which an event is passed on.
pub fn relay_event_name(event: InboundEvent) -> (name: Option<&'static str>)
    ensures
        match name {
            Some(n) => relay_name(event) == Some(n@),
            None => relay_name(event) is None,
        },
{
    match event {
        InboundEvent::BidMade => Some("bid_made"),
        InboundEvent::PassMade => Some("pass_made"),
        InboundEvent::Redeal => Some("cards_redealt"),
        InboundEvent::BiddingComplete => Some("bidding_complete"),
        InboundEvent::HandUpdate => Some("hand_updated"),
        InboundEvent::GameStateUpdate => Some("game_state_updated"),
        _ => None,
    }
}

/// Decides what the players of a match are told of an event that a client
/// passes on: under which name, in which words, and who of them is
/// reached on this instance. A bid or a pass by a seat that is not taken
/// is not passed on.
pub fn relay(registry: &Registry, roster: &Roster, names: &Directory, request: &RelayRequest) -> (res:
    Result<Relay, String>)
    ensures
        res is Err <==> request@.refusal(roster@) is Some,
        res matches Err(e) ==> Some(e@) == request@.refusal(roster@),
        res matches Ok(told) ==> {
            &&& Some(told.event@) == relay_name(request@.event())
            &&& told.phase@ == "bidding"@
            &&& told.message@ == request@.words(roster@, names.names@)
            &&& text_views(told.targets@) == common(
                request@.audience(roster@),
                registry@.connections,
            )
        },
{
    let mut audience = roster.user_ids();
    let (event, message) = match request {
        RelayRequest::BidMade { bidder, length, suit, current_bidder } => {
            if *bidder >= roster.len() {
                return Err(String::from_str("Invalid bidder position"));
            }
            ("bid_made", bid_text(names.username_at(roster, *bidder), *length, suit.as_str()))
        },
        RelayRequest::PassMade { passer, current_bidder, all_passed, bidding_complete } => {
            if *passer >= roster.len() {
                return Err(String::from_str("Invalid passer position"));
            }
            (
                "pass_made",
                pass_text(
                    names.username_at(roster, *passer),
                    names.username_at(roster, *current_bidder),
                    *all_passed,
                    *bidding_complete,
                ),
            )
        },
        RelayRequest::Redeal { dealer, current_bidder } => (
            "cards_redealt",
            redeal_text(
                names.username_at(roster, *dealer),
                names.username_at(roster, *current_bidder),
            ),
        ),
        RelayRequest::BiddingComplete { declarer, length, suit, partner } => {
            let with = match partner {
                Some(p) => *p,
                None => seat_across(*declarer),
            };
            let others = opponent_seats(*declarer, with);
            (
                "bidding_complete",
                bidding_complete_text(
                    names.username_at(roster, *declarer),
                    *length,
                    suit.as_str(),
                    names.username_at(roster, with),
                    names.username_at(roster, others.0),
                    names.username_at(roster, others.1),
                ),
            )
        },
        RelayRequest::HandUpdate { player_id } => {
            audience = Vec::new();
            audience.push(player_id.clone());
            assert(text_views(audience@) =~= seq![player_id@]);
            ("hand_updated", String::from_str("Your hand has been updated"))
        },
        RelayRequest::GameStateUpdate => ("game_state_updated", String::from_str("Game state updated")),
    };
    let targets = registry.forward_targets(&audience);
    Ok(
        Relay {
            event: String::from_str(event),
            phase: String::from_str("bidding"),
            message,
            targets,
        },
    )
}

} // verus!
