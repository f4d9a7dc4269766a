use sjavs::players::Roster;
use sjavs::pubsub::Registry;
use sjavs::relay::{opponent_seats, relay, relay_event_name, RelayRequest};
use sjavs::session::InboundEvent;
use sjavs::snapshot::Directory;

fn four_players() -> Roster {
    let mut roster = Roster::with_host("alice".to_string());
    roster.join("bob");
    roster.join("carol");
    roster.join("dave");
    roster
}

fn directory() -> Directory {
    Directory {
        names: vec![
            ("alice".to_string(), "Alice".to_string()),
            ("bob".to_string(), "Bob".to_string()),
            ("carol".to_string(), "Carol".to_string()),
            ("dave".to_string(), "Dave".to_string()),
        ],
    }
}

fn registry() -> Registry {
    let mut registry = Registry::new();
    registry.connect("bob");
    registry.connect("dave");
    registry.connect("erin");
    registry
}

fn names(ids: &[&str]) -> Vec<String> {
    ids.iter().map(|s| s.to_string()).collect()
}

#[test]
fn names_of_relayed_events() {
    assert_eq!(relay_event_name(InboundEvent::BidMade), Some("bid_made"));
    assert_eq!(relay_event_name(InboundEvent::PassMade), Some("pass_made"));
    assert_eq!(relay_event_name(InboundEvent::Redeal), Some("cards_redealt"));
    assert_eq!(relay_event_name(InboundEvent::BiddingComplete), Some("bidding_complete"));
    assert_eq!(relay_event_name(InboundEvent::HandUpdate), Some("hand_updated"));
    assert_eq!(relay_event_name(InboundEvent::GameStateUpdate), Some("game_state_updated"));
    assert_eq!(relay_event_name(InboundEvent::Join), None);
    assert_eq!(relay_event_name(InboundEvent::TeamUpRequest), None);
    assert_eq!(relay_event_name(InboundEvent::Unknown), None);
}

#[test]
fn bids_and_passes_are_passed_on_in_words() {
    let told = relay(
        &registry(),
        &four_players(),
        &directory(),
        &RelayRequest::BidMade { bidder: 1, length: 6, suit: "hearts".to_string(), current_bidder: 2 },
    )
    .unwrap();
    assert_eq!(told.event, "bid_made");
    assert_eq!(told.phase, "bidding");
    assert_eq!(told.message, "Bob bid 6 hearts trumps");
    assert_eq!(told.targets, names(&["bob", "dave"]));
    let pass = |all_passed, bidding_complete| {
        relay(
            &registry(),
            &four_players(),
            &directory(),
            &RelayRequest::PassMade { passer: 2, current_bidder: 3, all_passed, bidding_complete },
        )
        .unwrap()
        .message
    };
    assert_eq!(pass(false, false), "Carol passed - Dave to bid");
    assert_eq!(pass(false, true), "Carol passed - Bidding complete!");
    assert_eq!(pass(true, false), "Carol passed - All players passed, redealing cards...");
    assert_eq!(pass(true, true), "Carol passed - All players passed, redealing cards...");
}

#[test]
fn seats_that_are_not_taken_pass_nothing_on() {
    let refused = relay(
        &registry(),
        &four_players(),
        &directory(),
        &RelayRequest::BidMade { bidder: 4, length: 6, suit: "hearts".to_string(), current_bidder: 0 },
    );
    assert_eq!(refused.err(), Some("Invalid bidder position".to_string()));
    let refused = relay(
        &registry(),
        &four_players(),
        &directory(),
        &RelayRequest::PassMade {
            passer: 7,
            current_bidder: 0,
            all_passed: false,
            bidding_complete: false,
        },
    );
    assert_eq!(refused.err(), Some("Invalid passer position".to_string()));
    let told = relay(
        &registry(),
        &four_players(),
        &directory(),
        &RelayRequest::PassMade {
            passer: 0,
            current_bidder: 9,
            all_passed: false,
            bidding_complete: false,
        },
    )
    .unwrap();
    assert_eq!(told.message, "Alice passed - Unknown Player to bid");
}

#[test]
fn redeals_and_the_end_of_bidding() {
    let told = relay(
        &registry(),
        &four_players(),
        &directory(),
        &RelayRequest::Redeal { dealer: 3, current_bidder: 0 },
    )
    .unwrap();
    assert_eq!(told.event, "cards_redealt");
    assert_eq!(told.message, "Cards redealt! Dave dealing, Alice to bid first");
    let told = relay(
        &registry(),
        &four_players(),
        &directory(),
        &RelayRequest::BiddingComplete {
            declarer: 3,
            length: 6,
            suit: "clubs".to_string(),
            partner: None,
        },
    )
    .unwrap();
    assert_eq!(told.event, "bidding_complete");
    assert_eq!(
        told.message,
        "Dave wins bidding with 6 clubs trumps! Partnership: Dave & Bob vs Alice & Carol"
    );
    let told = relay(
        &registry(),
        &four_players(),
        &directory(),
        &RelayRequest::BiddingComplete {
            declarer: 3,
            length: 6,
            suit: "clubs".to_string(),
            partner: Some(2),
        },
    )
    .unwrap();
    assert_eq!(
        told.message,
        "Dave wins bidding with 6 clubs trumps! Partnership: Dave & Carol vs Alice & Bob"
    );
}

#[test]
fn hand_updates_go_to_their_owner() {
    let told = relay(
        &registry(),
        &four_players(),
        &directory(),
        &RelayRequest::HandUpdate { player_id: "dave".to_string() },
    )
    .unwrap();
    assert_eq!(told.event, "hand_updated");
    assert_eq!(told.message, "Your hand has been updated");
    assert_eq!(told.targets, names(&["dave"]));
    let told = relay(
        &registry(),
        &four_players(),
        &directory(),
        &RelayRequest::HandUpdate { player_id: "alice".to_string() },
    )
    .unwrap();
    assert!(told.targets.is_empty());
    let told =
        relay(&registry(), &four_players(), &directory(), &RelayRequest::GameStateUpdate).unwrap();
    assert_eq!(told.event, "game_state_updated");
    assert_eq!(told.message, "Game state updated");
    assert_eq!(told.targets, names(&["bob", "dave"]));
}

#[test]
fn opponents_are_the_two_other_seats() {
    assert_eq!(opponent_seats(0, 2), (1, 3));
    assert_eq!(opponent_seats(0, 1), (2, 3));
    assert_eq!(opponent_seats(0, 3), (1, 2));
    assert_eq!(opponent_seats(3, 2), (0, 1));
    assert_eq!(opponent_seats(3, 1), (0, 2));
    assert_eq!(opponent_seats(2, 2), (3, 1));
}
