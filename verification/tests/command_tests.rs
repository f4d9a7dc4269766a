use sjavs::bidding::{make_bid, pass_bid, pass_bid_with_deal, PassKind};
use sjavs::card::{Card, Rank, Suit};
use sjavs::commands::{abort_announcement, Announcement, EventKind, StoreStep};
use sjavs::completion::{can_apply_result, complete_game, reopen_for_next_game, RubberPolicy};
use sjavs::cross::{CrossState, CrossTeam};
use sjavs::deck::Deck;
use sjavs::errors::{CommandError, ErrorKind};
use sjavs::hand::Hand;
use sjavs::lifecycle::{
    after_pin_refusal, create_match, format_hex, join_match, leave_match, new_match_id,
    propose_match_id, propose_pin, start_game, start_game_with, MAX_PIN_ATTEMPTS,
};
use sjavs::normal_match::{NormalMatch, NormalMatchStatus};
use sjavs::players::Roster;
use sjavs::scoring::SjavsResult;
use sjavs::trick::{GameTrickState, TrickState};

fn card(code: &str) -> Card {
    Card::from_code(code).unwrap()
}

fn cards(codes: &[&str]) -> Vec<Card> {
    codes.iter().map(|c| card(c)).collect()
}

fn four_players() -> Roster {
    let mut roster = Roster::with_host("alice".to_string());
    roster.join("bob");
    roster.join("carol");
    roster.join("dave");
    roster
}

fn names(ids: &[&str]) -> Vec<String> {
    ids.iter().map(|s| s.to_string()).collect()
}

fn waiting_match() -> NormalMatch {
    NormalMatch::created_at("g7".to_string(), 4711, 3, 1_700_000_000_000)
}

fn bidding_match(dealer: usize) -> NormalMatch {
    let mut m = waiting_match();
    m.start_dealing(dealer);
    m.start_bidding();
    m
}

/// Hands in which seat 1 holds six trumps in hearts and seat 3 six in clubs.
fn arranged_hands() -> [Vec<Card>; 4] {
    [
        cards(&["7D", "8D", "9D", "10D", "7S", "8S", "9S", "10S"]),
        cards(&["JH", "JD", "AH", "KH", "QH", "10H", "KD", "AD"]),
        cards(&["QD", "KS", "AS", "7H", "8H", "9H", "QS", "JS"]),
        cards(&["QC", "JC", "AC", "KC", "10C", "9C", "8C", "7C"]),
    ]
}

#[test]
fn create_join_start_deal() {
    let pin = propose_pin();
    assert!((1000..=9999).contains(&pin));
    let id = propose_match_id();
    assert!(id.starts_with("game_"));
    let created = create_match("alice", None, id.clone(), pin, false, 55).unwrap();
    assert_eq!(created.game.id, id);
    assert_eq!(created.game.pin, pin);
    assert_eq!(created.game.status, NormalMatchStatus::Waiting);
    assert_eq!(created.game.number_of_crosses, 3);
    assert_eq!(created.game.created_timestamp, 55);
    assert_eq!(created.roster.user_ids(), names(&["alice"]));
    assert!(created.roster.is_host("alice"));
    assert_eq!(
        created.plan,
        vec![
            StoreStep::WriteMatch,
            StoreStep::WritePlayer,
            StoreStep::WriteBackReference,
            StoreStep::WritePinIndex
        ]
    );
    assert_eq!(created.response.game_pin, pin);
    assert_eq!(created.response.game_id, id);
    assert_eq!(created.response.state.host, "alice");
    assert_eq!(created.response.state.status, "waiting");

    let mut roster = created.roster;
    for user in ["bob", "carol", "dave"] {
        let joined =
            join_match(user, None, Some(&id), Some(&created.game), roster, "alice").unwrap();
        assert!(joined.added);
        assert_eq!(joined.plan, vec![StoreStep::WritePlayer, StoreStep::WriteBackReference]);
        assert_eq!(joined.events.len(), 1);
        assert_eq!(joined.events[0].kind, EventKind::PlayerJoined);
        assert_eq!(joined.events[0].game_id, id);
        assert_eq!(joined.response.state.host, "alice");
        roster = joined.roster;
        assert_eq!(joined.events[0].affected_players, roster.user_ids());
    }
    assert_eq!(roster.user_ids(), names(&["alice", "bob", "carol", "dave"]));
    assert_eq!(roster.position_of("alice"), Some(0));
    assert_eq!(roster.position_of("dave"), Some(3));

    let started = start_game(Some(created.game), &roster, "alice").unwrap();
    assert_eq!(started.game.status, NormalMatchStatus::Bidding);
    assert!(started.dealer < 4);
    assert_eq!(started.game.dealer_position, Some(started.dealer));
    assert_eq!(started.game.current_bidder, Some((started.dealer + 1) % 4));
    assert_eq!(started.hands.len(), 4);
    assert!(started.hands.iter().all(|h| h.len() == 8));
    assert!(Deck::has_valid_hands(&started.hands));
    assert_eq!(started.plan, vec![StoreStep::WriteHands, StoreStep::WriteMatch]);
    assert_eq!(started.events.len(), 5);
    assert_eq!(started.events[0].kind, EventKind::GameStarted);
    assert_eq!(started.events[0].affected_players, names(&["alice", "bob", "carol", "dave"]));
    for seat in 0..4 {
        assert_eq!(started.events[1 + seat].kind, EventKind::HandDealt);
        assert_eq!(started.events[1 + seat].affected_players, vec![roster.user_ids()[seat].clone()]);
    }
    assert!(started.response.hands_dealt);
    assert_eq!(started.response.state.status, "bidding");
    assert_eq!(started.response.state.players.len(), 4);
}

#[test]
fn creating_is_refused() {
    let refusal = |current: Option<&str>, pin, in_use| {
        let e = create_match("alice", current, "g".to_string(), pin, in_use, 0).unwrap_err();
        (e.kind, e.error)
    };
    assert_eq!(refusal(Some("g0"), 1234, false), (ErrorKind::Conflict, "Already in game".to_string()));
    assert_eq!(refusal(None, 999, false), (ErrorKind::Fatal, "Pin must have four digits".to_string()));
    assert_eq!(refusal(None, 10000, false), (ErrorKind::Fatal, "Pin must have four digits".to_string()));
    assert_eq!(refusal(None, 1234, true), (ErrorKind::Conflict, "Pin in use".to_string()));
    assert!(create_match("alice", None, "g".to_string(), 1000, false, 0).is_ok());
    assert!(create_match("alice", None, "g".to_string(), 9999, false, 0).is_ok());
}

#[test]
fn match_ids_name_time_and_suffix() {
    assert_eq!(new_match_id(1700000000, 0xbeef), "game_1700000000_beef");
    assert_eq!(new_match_id(0, 0), "game_0_0");
    assert_eq!(new_match_id(7, 0x0a10), "game_7_a10");
    assert_eq!(format_hex(255), "ff");
    assert_eq!(format_hex(16), "10");
    assert_eq!(format_hex(0x1234abcdef), "1234abcdef");
    let id = propose_match_id();
    let parts: Vec<&str> = id.split('_').collect();
    assert_eq!(parts.len(), 3);
    // The clock shows a time after the year 2020.
    assert!(parts[1].parse::<u64>().unwrap() > 1_577_836_800);
    assert!(u16::from_str_radix(parts[2], 16).is_ok());
    let mut pins: Vec<u32> = (0..50).map(|_| propose_pin()).collect();
    assert!(pins.iter().all(|p| (1000..=9999).contains(p)));
    pins.sort();
    pins.dedup();
    assert!(pins.len() > 1);
}

#[test]
fn joining_is_refused() {
    let game = waiting_match();
    let refusal = |current: Option<&str>, target: Option<&str>, game: Option<&NormalMatch>| {
        let e = join_match("bob", current, target, game, Roster::with_host("alice".to_string()), "alice")
            .unwrap_err();
        (e.kind, e.error)
    };
    assert_eq!(refusal(Some("other"), Some("g7"), Some(&game)), (ErrorKind::Conflict, "Already in game".to_string()));
    assert_eq!(refusal(Some("other"), None, None), (ErrorKind::Conflict, "Already in game".to_string()));
    assert_eq!(refusal(None, None, None), (ErrorKind::NotFound, "Invalid pin".to_string()));
    assert_eq!(refusal(None, Some("g7"), None), (ErrorKind::NotFound, "Game not found".to_string()));
    let started = bidding_match(0);
    assert_eq!(refusal(None, Some("g7"), Some(&started)), (ErrorKind::Conflict, "Game not joinable".to_string()));
    assert_eq!(ErrorKind::Conflict.status_code(), 409);
    assert_eq!(ErrorKind::NotFound.status_code(), 404);
}

#[test]
fn join_then_leave_restores_the_players() {
    let game = waiting_match();
    let mut roster = Roster::with_host("alice".to_string());
    roster.join("bob");
    let before = roster.user_ids();
    let joined = join_match("carol", None, Some("g7"), Some(&game), roster, "alice").unwrap();
    assert_eq!(joined.roster.user_ids(), names(&["alice", "bob", "carol"]));
    // A second join by the same user is a no-op.
    let again =
        join_match("carol", Some("g7"), Some("g7"), Some(&game), joined.roster, "alice").unwrap();
    assert!(!again.added);
    assert!(again.plan.is_empty());
    assert!(again.events.is_empty());
    assert_eq!(again.roster.user_ids(), names(&["alice", "bob", "carol"]));
    let left = leave_match("carol", Some("g7"), Some(waiting_match()), again.roster).unwrap();
    assert!(!left.game_deleted);
    assert_eq!(left.roster.user_ids(), before);
    assert_eq!(left.released, names(&["carol"]));
    assert_eq!(left.plan, vec![StoreStep::RemovePlayer, StoreStep::RemoveBackReference]);
    assert_eq!(left.events.len(), 1);
    assert_eq!(left.events[0].kind, EventKind::PlayerLeft);
    assert_eq!(left.events[0].affected_players, names(&["alice", "bob", "carol"]));
    assert!(!left.response.game_deleted);
    assert!(left.game.is_none());
    assert!(left.roster.is_host("alice"));
    assert_eq!(left.roster.position_of("bob"), Some(1));
}

#[test]
fn the_host_leaving_ends_the_match() {
    let left = leave_match("alice", Some("g7"), Some(bidding_match(1)), four_players()).unwrap();
    assert!(left.game_deleted);
    assert_eq!(left.roster.len(), 0);
    assert_eq!(left.released, names(&["alice", "bob", "carol", "dave"]));
    assert_eq!(
        left.plan,
        vec![StoreStep::RemovePinIndex, StoreStep::ClearBackReferences, StoreStep::DeleteMatchKeys]
    );
    assert_eq!(left.events.len(), 1);
    assert_eq!(left.events[0].kind, EventKind::GameTerminated);
    assert_eq!(left.events[0].game_id, "g7");
    assert_eq!(left.events[0].affected_players, names(&["alice", "bob", "carol", "dave"]));
    assert_eq!(left.events[0].message, "Game terminated because host left");
    assert!(left.response.game_deleted);
    let record = left.game.unwrap();
    assert_eq!(record.status, NormalMatchStatus::Cancelled);
    assert_eq!(record.dealer_position, Some(1));
    let mut over = bidding_match(1);
    over.status = NormalMatchStatus::Completed;
    over.cancel();
    assert_eq!(over.status, NormalMatchStatus::Completed);
    let e = leave_match("erin", Some("g7"), None, four_players()).unwrap_err();
    assert_eq!((e.kind, e.error.as_str()), (ErrorKind::NotFound, "Game not found"));
    let e = leave_match("alice", None, None, four_players()).unwrap_err();
    assert_eq!((e.kind, e.error.as_str()), (ErrorKind::NotFound, "You are not in any game"));
}

#[test]
fn starting_is_refused() {
    let deal = || Some(arranged_hands());
    let refusal = |game: Option<NormalMatch>, roster: &Roster, user: &str, deal| {
        let e = start_game_with(game, roster, user, 2, deal).unwrap_err();
        (e.kind, e.error)
    };
    let full = four_players();
    assert_eq!(refusal(None, &full, "alice", deal()), (ErrorKind::NotFound, "Game not found".to_string()));
    assert_eq!(
        refusal(Some(waiting_match()), &full, "bob", deal()),
        (ErrorKind::Forbidden, "Only host can start the game".to_string())
    );
    let mut three = Roster::with_host("alice".to_string());
    three.join("bob");
    three.join("carol");
    assert_eq!(
        refusal(Some(waiting_match()), &three, "alice", deal()),
        (ErrorKind::Conflict, "Invalid player count".to_string())
    );
    let mut five = four_players();
    five.join("erin");
    assert_eq!(
        refusal(Some(waiting_match()), &five, "alice", deal()),
        (ErrorKind::Conflict, "Invalid player count".to_string())
    );
    assert_eq!(
        refusal(Some(bidding_match(0)), &full, "alice", deal()),
        (ErrorKind::Conflict, "Game cannot be started".to_string())
    );
    assert_eq!(
        refusal(Some(waiting_match()), &full, "alice", None),
        (ErrorKind::Fatal, "Unable to deal valid hands".to_string())
    );
    assert_eq!(ErrorKind::Forbidden.status_code(), 403);
    assert_eq!(ErrorKind::Fatal.status_code(), 500);
    let started = start_game_with(Some(waiting_match()), &full, "alice", 2, deal()).unwrap();
    assert_eq!(started.dealer, 2);
    assert_eq!(started.game.current_bidder, Some(3));
    assert_eq!(started.hands, arranged_hands());
}

#[test]
fn bidding_with_club_priority() {
    let hands = arranged_hands();
    let roster = four_players();
    let hand = |seat: usize| Hand::new(hands[seat].clone(), seat);
    let game = bidding_match(0);
    // Seat 1 bids six in hearts.
    let bid = make_bid(Some(game), Some(1), &roster, Some(&hand(1)), 6, "hearts").unwrap();
    assert_eq!(bid.plan, vec![StoreStep::WriteMatch]);
    assert_eq!(bid.events.len(), 1);
    assert_eq!(bid.events[0].kind, EventKind::BidMade);
    assert_eq!(bid.events[0].affected_players, names(&["alice", "bob", "carol", "dave"]));
    assert_eq!(bid.response.bid.length, 6);
    assert_eq!(bid.response.bid.suit, "hearts");
    assert_eq!(bid.response.bid.display_text, "6 trumps (hearts)");
    assert!(!bid.response.bid.is_club_declaration);
    assert!(!bid.response.bidding_complete);
    assert_eq!(bid.response.bidder_position, 1);
    assert_eq!(bid.response.game_state.current_bidder, 2);
    assert_eq!(bid.response.game_state.highest_bid_length, Some(6));
    assert_eq!(bid.response.game_state.highest_bidder, Some(1));
    assert_eq!(bid.game.current_bidder, Some(2));
    // Seat 2 passes.
    let pass = pass_bid(Some(bid.game), Some(2), &roster, Some(&hands)).unwrap();
    assert_eq!(pass.kind, PassKind::Continue);
    assert_eq!(pass.plan, vec![StoreStep::WriteMatch]);
    assert_eq!(pass.events[0].kind, EventKind::PassMade);
    assert_eq!(pass.response.message, "Pass recorded");
    // Seat 3 bids six in clubs: the club declaration.
    let clubs = make_bid(Some(pass.game), Some(3), &roster, Some(&hand(3)), 6, "clubs").unwrap();
    assert!(clubs.response.bid.is_club_declaration);
    assert_eq!(clubs.game.highest_bid_suit, Some("clubs".to_string()));
    // Seats 0, 1 and 2 pass.
    let pass = pass_bid(Some(clubs.game), Some(0), &roster, Some(&hands)).unwrap();
    assert_eq!(pass.kind, PassKind::Continue);
    let pass = pass_bid(Some(pass.game), Some(1), &roster, Some(&hands)).unwrap();
    assert_eq!(pass.kind, PassKind::Continue);
    assert!(pass.tricks.is_none());
    let done = pass_bid(Some(pass.game), Some(2), &roster, Some(&hands)).unwrap();
    assert_eq!(done.kind, PassKind::BiddingComplete);
    assert_eq!(done.game.status, NormalMatchStatus::Playing);
    assert_eq!(done.game.trump_suit, Some("clubs".to_string()));
    assert_eq!(done.game.trump_declarer, Some(3));
    assert_eq!(done.game.current_leader, Some(1));
    assert_eq!(done.game.current_bidder, None);
    assert_eq!(done.plan, vec![StoreStep::WriteMatch, StoreStep::WriteTrickState]);
    assert_eq!(done.events.len(), 1);
    assert_eq!(done.events[0].kind, EventKind::BiddingComplete);
    assert_eq!(done.response.message, "Bidding complete - game started");
    assert!(done.response.bidding_complete);
    assert!(!done.response.all_passed);
    assert!(done.hands.is_none());
    // Seat 2 holds the queen of spades, the strongest permanent trump
    // outside the declarer's hand.
    assert_eq!(done.partner, Some(2));
    let tricks = done.tricks.unwrap();
    assert_eq!(tricks.trump_team, (3, 2));
    assert_eq!(tricks.current_trick.trick_number, 1);
    assert_eq!(tricks.current_trick.current_player, 1);
    assert_eq!(tricks.current_trick.trump_suit, "clubs");
    assert_eq!(tricks.current_trick.game_id, "g7");
    assert_eq!(tricks.tricks_won, (0, 0));
    assert!(!tricks.game_complete);
}

#[test]
fn bids_are_refused() {
    let hands = arranged_hands();
    let roster = four_players();
    let hand = |seat: usize| Hand::new(hands[seat].clone(), seat);
    let refusal = |game: Option<NormalMatch>, seat, hand: Option<&Hand>, length, suit: &str| {
        let e = make_bid(game, seat, &roster, hand, length, suit).unwrap_err();
        (e.kind, e.error, e.message)
    };
    assert_eq!(
        refusal(None, Some(1), Some(&hand(1)), 6, "hearts"),
        (ErrorKind::NotFound, "Game not found".to_string(), None)
    );
    assert_eq!(
        refusal(Some(bidding_match(0)), None, Some(&hand(1)), 6, "hearts"),
        (ErrorKind::NotFound, "Player not in game".to_string(), None)
    );
    assert_eq!(
        refusal(Some(bidding_match(0)), Some(1), None, 6, "hearts"),
        (ErrorKind::NotFound, "Hand not found".to_string(), None)
    );
    assert_eq!(
        refusal(Some(bidding_match(0)), Some(2), Some(&hand(2)), 6, "hearts"),
        (ErrorKind::NotYourTurn, "Not your turn to bid".to_string(), None)
    );
    assert_eq!(
        refusal(Some(bidding_match(0)), Some(1), Some(&hand(1)), 9, "hearts"),
        (
            ErrorKind::IllegalMove,
            "Invalid bid".to_string(),
            Some("Bid must be between 5 and 8 trumps".to_string())
        )
    );
    assert_eq!(
        refusal(Some(bidding_match(0)), Some(1), Some(&hand(1)), 6, "stars"),
        (ErrorKind::IllegalMove, "Invalid bid".to_string(), Some("Invalid trump suit".to_string()))
    );
    // Seat 1 holds six trumps in hearts, not seven.
    assert_eq!(
        refusal(Some(bidding_match(0)), Some(1), Some(&hand(1)), 7, "hearts"),
        (ErrorKind::IllegalMove, "Insufficient trumps".to_string(), None)
    );
    assert_eq!(
        refusal(Some(bidding_match(0)), Some(1), Some(&hand(1)), 5, "spades"),
        (ErrorKind::IllegalMove, "Insufficient trumps".to_string(), None)
    );
    assert!(make_bid(Some(bidding_match(0)), Some(1), &roster, Some(&hand(1)), 5, "hearts").is_ok());
    assert_eq!(
        refusal(Some(bidding_match(0)), Some(1), Some(&hand(1)), 5, "diamonds"),
        (ErrorKind::IllegalMove, "Insufficient trumps".to_string(), None)
    );
    assert_eq!(ErrorKind::NotYourTurn.status_code(), 403);
    assert_eq!(ErrorKind::IllegalMove.status_code(), 400);
}

#[test]
fn all_pass_redeal() {
    let hands = arranged_hands();
    let roster = four_players();
    let mut game = bidding_match(2);
    for seat in [3usize, 0, 1] {
        let pass = pass_bid(Some(game), Some(seat), &roster, Some(&hands)).unwrap();
        assert_eq!(pass.kind, PassKind::Continue);
        assert!(pass.hands.is_none());
        game = pass.game;
    }
    let redeal = pass_bid(Some(game), Some(2), &roster, Some(&hands)).unwrap();
    assert_eq!(redeal.kind, PassKind::Redeal);
    assert_eq!(redeal.game.status, NormalMatchStatus::Bidding);
    assert_eq!(redeal.game.dealer_position, Some(2));
    assert_eq!(redeal.game.current_bidder, Some(3));
    assert_eq!(redeal.game.highest_bid_length, None);
    assert_eq!(redeal.game.highest_bidder, None);
    assert_eq!(redeal.game.highest_bid_suit, None);
    assert_eq!(redeal.game.trump_suit, None);
    assert_eq!(
        redeal.plan,
        vec![StoreStep::ClearHands, StoreStep::WriteHands, StoreStep::WriteMatch]
    );
    assert_eq!(redeal.events.len(), 1);
    assert_eq!(redeal.events[0].kind, EventKind::Redeal);
    assert_eq!(redeal.events[0].kind.name(), "redeal");
    assert_eq!(redeal.response.message, "All players passed - cards redealt");
    assert!(redeal.response.all_passed);
    assert!(!redeal.response.bidding_complete);
    let dealt = redeal.hands.unwrap();
    assert!(Deck::has_valid_hands(&dealt));
    assert!(dealt.iter().all(|h| h.len() == 8));
    assert!(redeal.tricks.is_none());
    assert!(redeal.partner.is_none());
}

#[test]
fn passes_are_refused() {
    let hands = arranged_hands();
    let roster = four_players();
    let refusal = |game: Option<NormalMatch>, seat, hands: Option<&[Vec<Card>; 4]>, deal| {
        let e = pass_bid_with_deal(game, seat, &roster, hands, deal).unwrap_err();
        (e.kind, e.error)
    };
    assert_eq!(refusal(None, Some(1), None, None), (ErrorKind::NotFound, "Game not found".to_string()));
    assert_eq!(
        refusal(Some(bidding_match(0)), None, None, None),
        (ErrorKind::NotFound, "Player not in game".to_string())
    );
    assert_eq!(
        refusal(Some(bidding_match(0)), Some(0), None, None),
        (ErrorKind::NotYourTurn, "Not your turn to bid".to_string())
    );
    assert_eq!(
        refusal(Some(waiting_match()), Some(1), None, None),
        (ErrorKind::NotYourTurn, "Not your turn to bid".to_string())
    );
    // The fourth pass needs a deal.
    let mut game = bidding_match(0);
    game.current_bidder = Some(0);
    assert_eq!(
        refusal(Some(game.clone()), Some(0), None, None),
        (ErrorKind::Fatal, "Unable to deal valid hands".to_string())
    );
    let redeal = pass_bid_with_deal(Some(game), Some(0), &roster, None, Some(arranged_hands())).unwrap();
    assert_eq!(redeal.hands, Some(arranged_hands()));
    // The third pass after a bid needs the hands.
    let mut game = bidding_match(0);
    game.make_bid(1, 5, "hearts".to_string()).unwrap();
    game.current_bidder = Some(0);
    assert_eq!(
        refusal(Some(game.clone()), Some(0), None, None),
        (ErrorKind::NotFound, "Hands not found".to_string())
    );
    let mut strange = game.clone();
    strange.highest_bid_suit = Some("stars".to_string());
    assert_eq!(
        refusal(Some(strange), Some(0), Some(&hands), None),
        (ErrorKind::Fatal, "Invalid trump suit".to_string())
    );
    let mut strange = game.clone();
    strange.highest_bid_length = None;
    assert_eq!(
        refusal(Some(strange), Some(0), Some(&hands), None),
        (ErrorKind::Fatal, "Failed to complete bidding".to_string())
    );
    let mut strange = game.clone();
    strange.dealer_position = None;
    assert_eq!(
        refusal(Some(strange), Some(0), Some(&hands), None),
        (ErrorKind::Fatal, "Current leader must be set to start tricks".to_string())
    );
    assert!(pass_bid_with_deal(Some(game), Some(0), &roster, Some(&hands), None).is_ok());
}

fn finished_tricks(points: (u8, u8), tricks: (u8, u8), trump: &str, winners: [usize; 8]) -> GameTrickState {
    let mut game = GameTrickState::new("g7".to_string(), 0, trump.to_string(), (0, 2));
    game.points_accumulated = points;
    game.tricks_won = tricks;
    game.game_complete = true;
    game.completed_tricks = winners
        .iter()
        .enumerate()
        .map(|(i, w)| TrickState {
            trick_number: i as u8 + 1,
            lead_suit: Some(Suit::Hearts),
            cards_played: Vec::new(),
            current_player: *w,
            trick_winner: Some(*w),
            is_complete: true,
            game_id: "g7".to_string(),
            trump_suit: trump.to_string(),
        })
        .collect();
    game
}

fn playing_match() -> NormalMatch {
    let mut m = bidding_match(0);
    m.make_bid(1, 5, "hearts".to_string()).unwrap();
    m.complete_bidding("hearts".to_string(), 1);
    m
}

#[test]
fn vol_in_hearts_scores_twelve() {
    let tricks = finished_tricks((120, 0), (8, 0), "hearts", [0, 2, 0, 2, 0, 0, 2, 2]);
    let done = complete_game(
        Some(playing_match()),
        Some(&tricks),
        None,
        &four_players(),
        RubberPolicy::EndMatch,
    )
    .unwrap();
    assert_eq!(done.result.trump_team_score, 12);
    assert_eq!(done.result.opponent_team_score, 0);
    assert_eq!(done.result.result_type, SjavsResult::Vol);
    assert!(!done.scoring.individual_vol);
    assert_eq!(done.cross.trump_team_score, 24);
    assert_eq!(done.cross.opponent_team_score, 12);
    assert_eq!(done.cross.match_id, "g7");
    assert_eq!(done.game.status, NormalMatchStatus::Completed);
    assert_eq!(done.game.current_cross, 0);
    assert!(!done.rubber_finished);
    assert!(done.new_game_ready);
    assert_eq!(
        done.plan,
        vec![
            StoreStep::WriteCrossState,
            StoreStep::WriteGameResult,
            StoreStep::WriteMatch,
            StoreStep::ClearTrickState
        ]
    );
    assert_eq!(done.events.len(), 1);
    assert_eq!(done.events[0].kind, EventKind::GameComplete);
    assert_eq!(done.events[0].message, "Vol - 12 points for trump team");
    assert_eq!(done.response.scoring.result_type, "Vol");
    assert_eq!(done.response.scoring.trump_team_score, 12);
    assert_eq!(done.response.scoring.trump_suit, "hearts");
    assert_eq!(done.response.cross_scores.trump_team_remaining, 24);
    assert_eq!(done.response.cross_scores.opponent_team_remaining, 12);
    assert!(done.response.new_game_ready);
}

#[test]
fn individual_vol_in_clubs_scores_twenty_four_and_ends_the_cross() {
    let tricks = finished_tricks((120, 0), (8, 0), "clubs", [2; 8]);
    let done = complete_game(
        Some(playing_match()),
        Some(&tricks),
        Some(CrossState::new("g7".to_string())),
        &four_players(),
        RubberPolicy::EndMatch,
    )
    .unwrap();
    assert_eq!(done.result.result_type, SjavsResult::IndividualVol);
    assert_eq!(done.result.trump_team_score, 24);
    assert_eq!(done.cross.opponent_team_score, 0);
    assert_eq!(done.cross.trump_team_score, 24);
    assert!(done.cross.cross_complete);
    let winner = done.cross_result.cross_won.unwrap();
    assert_eq!(winner.winning_team, CrossTeam::OpponentTeam);
    assert!(winner.double_victory);
    assert_eq!(winner.final_score, (24, 0));
    assert_eq!(done.game.current_cross, 1);
    assert!(!done.rubber_finished);
    assert!(!done.new_game_ready);
    // With the other policy the next cross starts at once.
    let done = complete_game(
        Some(playing_match()),
        Some(&tricks),
        None,
        &four_players(),
        RubberPolicy::ResetCross,
    )
    .unwrap();
    assert_eq!(done.cross.trump_team_score, 24);
    assert_eq!(done.cross.opponent_team_score, 24);
    assert_eq!(done.cross.opponent_team_crosses, 1);
    assert_eq!(done.cross.trump_team_crosses, 0);
    assert!(!done.cross.cross_complete);
    assert!(done.new_game_ready);
    // The last cross of the rubber ends it under either policy.
    let mut last = playing_match();
    last.current_cross = 2;
    let done =
        complete_game(Some(last), Some(&tricks), None, &four_players(), RubberPolicy::ResetCross)
            .unwrap();
    assert_eq!(done.game.current_cross, 3);
    assert!(done.rubber_finished);
    assert!(!done.new_game_ready);
    assert!(done.cross.cross_complete);
}

#[test]
fn a_tie_carries_two_into_the_next_game() {
    let tie = finished_tricks((60, 60), (4, 4), "hearts", [0, 1, 2, 3, 0, 1, 2, 3]);
    let first =
        complete_game(Some(playing_match()), Some(&tie), None, &four_players(), RubberPolicy::EndMatch)
            .unwrap();
    assert_eq!(first.result.result_type, SjavsResult::Tie);
    assert_eq!(first.cross_result.trump_team_new_score, first.cross_result.trump_team_old_score);
    assert_eq!(first.cross_result.opponent_team_new_score, first.cross_result.opponent_team_old_score);
    assert_eq!(first.cross.next_game_bonus, 2);
    assert!(first.new_game_ready);
    // The next game: the trump team wins plainly in hearts with 95 points.
    let win = finished_tricks((95, 25), (6, 2), "hearts", [0, 1, 2, 0, 0, 1, 2, 2]);
    let second = complete_game(
        Some(playing_match()),
        Some(&win),
        Some(first.cross),
        &four_players(),
        RubberPolicy::EndMatch,
    )
    .unwrap();
    assert_eq!(second.result.trump_team_score, 4);
    assert_eq!(second.cross_result.bonus_applied, 2);
    let delta =
        second.cross_result.opponent_team_old_score - second.cross_result.opponent_team_new_score;
    assert_eq!(delta, 6);
    assert_eq!(second.cross.opponent_team_score, 18);
    assert_eq!(second.cross.trump_team_score, 24);
    assert!(second.cross_result.cross_won.is_none());
    assert_eq!(second.cross.next_game_bonus, 0);
}

#[test]
fn completing_is_refused() {
    let roster = four_players();
    let refusal = |game: Option<NormalMatch>, tricks: Option<&GameTrickState>, cross| {
        let e = complete_game(game, tricks, cross, &roster, RubberPolicy::EndMatch).unwrap_err();
        (e.kind, e.error)
    };
    let done = finished_tricks((75, 45), (5, 3), "hearts", [0, 1, 2, 3, 0, 2, 0, 1]);
    assert_eq!(refusal(None, Some(&done), None), (ErrorKind::NotFound, "Game not found".to_string()));
    assert_eq!(
        refusal(Some(playing_match()), None, None),
        (ErrorKind::NotFound, "Trick state not found".to_string())
    );
    assert_eq!(
        refusal(Some(bidding_match(0)), Some(&done), None),
        (ErrorKind::Conflict, "Game is not in playing phase".to_string())
    );
    let mut over = playing_match();
    over.status = NormalMatchStatus::Completed;
    assert_eq!(
        refusal(Some(over), Some(&done), None),
        (ErrorKind::Conflict, "Game is not in playing phase".to_string())
    );
    let running = GameTrickState::new("g7".to_string(), 0, "hearts".to_string(), (0, 2));
    assert_eq!(
        refusal(Some(playing_match()), Some(&running), None),
        (ErrorKind::Conflict, "Game not complete".to_string())
    );
    let broken = finished_tricks((75, 50), (5, 3), "hearts", [0, 1, 2, 3, 0, 2, 0, 1]);
    assert_eq!(
        refusal(Some(playing_match()), Some(&broken), None),
        (ErrorKind::Fatal, "Invalid point totals in completed game".to_string())
    );
    let mut low = CrossState::new("g7".to_string());
    low.opponent_team_score = -127;
    assert_eq!(
        refusal(Some(playing_match()), Some(&done), Some(low)),
        (ErrorKind::Fatal, "Cross state out of range".to_string())
    );
    let mut low = CrossState::new("g7".to_string());
    low.opponent_team_score = -126;
    assert!(can_apply_result(&low, &done.get_final_scoring().unwrap().calculate_game_result()));
    assert!(complete_game(Some(playing_match()), Some(&done), Some(low), &roster, RubberPolicy::EndMatch).is_ok());
}

#[test]
fn reopening_for_the_next_game() {
    let roster = four_players();
    let cross = CrossState::new("g7".to_string());
    let mut game = playing_match();
    let e = reopen_for_next_game(&mut game, &roster, "bob", &cross).unwrap_err();
    assert_eq!((e.kind, e.error.as_str()), (ErrorKind::Forbidden, "Only host can start a new game"));
    let e = reopen_for_next_game(&mut game, &roster, "alice", &cross).unwrap_err();
    assert_eq!((e.kind, e.error.as_str()), (ErrorKind::Conflict, "Game is not completed"));
    game.status = NormalMatchStatus::Completed;
    let mut won = CrossState::new("g7".to_string());
    won.cross_complete = true;
    let e = reopen_for_next_game(&mut game, &roster, "alice", &won).unwrap_err();
    assert_eq!(
        (e.kind, e.error.as_str()),
        (ErrorKind::Conflict, "Cross is complete - cannot start new game")
    );
    assert_eq!(game.status, NormalMatchStatus::Completed);
    assert!(reopen_for_next_game(&mut game, &roster, "alice", &cross).is_ok());
    assert_eq!(game.status, NormalMatchStatus::Waiting);
    assert_eq!(game.trump_suit, Some("hearts".to_string()));
    assert!(start_game(Some(game), &roster, "alice").is_ok());
}

#[test]
fn events_go_to_the_match_and_to_each_user() {
    let event = Announcement::new(EventKind::BidMade, "g7", names(&["alice", "bob"]), "Bid made");
    assert_eq!(event.channels(), names(&["match:g7", "user:alice", "user:bob"]));
    let private = Announcement::new(EventKind::HandDealt, "g7", names(&["bob"]), "Hand dealt");
    assert_eq!(private.channels(), names(&["user:bob"]));
    let nobody = Announcement::new(EventKind::GameAborted, "g7", Vec::new(), "");
    assert_eq!(nobody.channels(), names(&["match:g7"]));
    let all = [
        (EventKind::PlayerJoined, "player_joined"),
        (EventKind::PlayerLeft, "player_left"),
        (EventKind::GameTerminated, "game_terminated"),
        (EventKind::GameStarted, "game_started"),
        (EventKind::HandDealt, "hand_dealt"),
        (EventKind::BidMade, "bid_made"),
        (EventKind::PassMade, "pass_made"),
        (EventKind::Redeal, "redeal"),
        (EventKind::BiddingComplete, "bidding_complete"),
        (EventKind::CardPlayed, "card_played"),
        (EventKind::TrickCompleted, "trick_completed"),
        (EventKind::GameComplete, "game_complete"),
        (EventKind::GameAborted, "game_aborted"),
    ];
    for (kind, name) in all {
        assert_eq!(kind.name(), name);
    }
}

#[test]
fn error_kinds() {
    assert_eq!(ErrorKind::NotAuthenticated.status_code(), 401);
    assert_eq!(ErrorKind::TransientStore.status_code(), 500);
    assert!(ErrorKind::TransientStore.is_retryable());
    assert!(!ErrorKind::Fatal.is_retryable());
    let plain = CommandError::new(ErrorKind::NotFound, "Game not found");
    assert_eq!(plain.error, "Game not found");
    assert_eq!(plain.message, None);
    let worded = CommandError::with_message(ErrorKind::IllegalMove, "Invalid bid", "why".to_string());
    assert_eq!(worded.message, Some("why".to_string()));
    assert_eq!(Rank::Queen.value(), 12);
}

#[test]
fn broken_invariants_are_reported_to_the_players() {
    let fatal = CommandError::new(ErrorKind::Fatal, "Invalid point totals in completed game");
    let event = abort_announcement(&fatal, "g7", names(&["alice", "bob"])).unwrap();
    assert_eq!(event.kind, EventKind::GameAborted);
    assert_eq!(event.game_id, "g7");
    assert_eq!(event.affected_players, names(&["alice", "bob"]));
    assert_eq!(event.message, "Invalid point totals in completed game");
    assert_eq!(event.channels(), names(&["match:g7", "user:alice", "user:bob"]));
    for kind in [
        ErrorKind::NotAuthenticated,
        ErrorKind::NotFound,
        ErrorKind::Conflict,
        ErrorKind::NotYourTurn,
        ErrorKind::Forbidden,
        ErrorKind::IllegalMove,
        ErrorKind::TransientStore,
    ] {
        assert!(abort_announcement(&CommandError::new(kind, "x"), "g7", Vec::new()).is_none());
    }
}

#[test]
fn cross_winners_are_shown_with_their_seats() {
    let tricks = finished_tricks((120, 0), (8, 0), "clubs", [2; 8]);
    let done = complete_game(
        Some(playing_match()),
        Some(&tricks),
        None,
        &four_players(),
        RubberPolicy::EndMatch,
    )
    .unwrap();
    let shown = done.response.cross_won.unwrap();
    assert_eq!(shown.winning_team, "opponent_team");
    assert!(shown.double_victory);
    assert_eq!(shown.winning_players, vec![1, 3]);
    let lost = finished_tricks((0, 120), (0, 8), "hearts", [1; 8]);
    let mut low = CrossState::new("g7".to_string());
    low.trump_team_score = 16;
    low.opponent_team_score = 20;
    let done =
        complete_game(Some(playing_match()), Some(&lost), Some(low), &four_players(), RubberPolicy::EndMatch)
            .unwrap();
    assert_eq!(done.result.result_type, SjavsResult::OpponentVol);
    let shown = done.response.cross_won.unwrap();
    assert_eq!(shown.winning_team, "trump_team");
    assert!(!shown.double_victory);
    assert_eq!(shown.winning_players, vec![0, 2]);
    let plain = finished_tricks((75, 45), (5, 3), "hearts", [0, 1, 2, 3, 0, 2, 0, 1]);
    let done =
        complete_game(Some(playing_match()), Some(&plain), None, &four_players(), RubberPolicy::EndMatch)
            .unwrap();
    assert!(done.response.cross_won.is_none());
    assert_eq!(done.response.message, "Game completed and scored successfully");
    assert_eq!(done.response.scoring.description, "Trump team 61-89 points - 2 points");
    assert_eq!(done.response.scoring.trump_team_points, 75);
}

#[test]
fn another_pin_is_tried_only_when_the_pin_was_in_use() {
    let in_use = CommandError::new(ErrorKind::Conflict, "Pin in use");
    assert!(after_pin_refusal(&in_use, 0));
    assert!(after_pin_refusal(&in_use, MAX_PIN_ATTEMPTS - 1));
    assert!(!after_pin_refusal(&in_use, MAX_PIN_ATTEMPTS));
    let elsewhere = CommandError::new(ErrorKind::Conflict, "Already in game");
    assert!(!after_pin_refusal(&elsewhere, 0));
    let fatal = CommandError::new(ErrorKind::Fatal, "Pin in use");
    assert!(!after_pin_refusal(&fatal, 0));
    let worded = CommandError::with_message(ErrorKind::Conflict, "Pin in use", "again".to_string());
    assert!(!after_pin_refusal(&worded, 0));
    let refused = create_match("alice", None, "g1".to_string(), 1234, true, 1).unwrap_err();
    assert!(after_pin_refusal(&refused, 3));
    let refused = create_match("alice", Some("g0"), "g1".to_string(), 1234, true, 1).unwrap_err();
    assert!(!after_pin_refusal(&refused, 3));
}
