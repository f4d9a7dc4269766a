use sjavs::card::{Card, Rank, Suit};
use sjavs::hand::Hand;

#[test]
fn hand_test_trump_counting() {
    let cards = vec![
        Card::new(Suit::Clubs, Rank::Queen),
        Card::new(Suit::Hearts, Rank::Jack),
        Card::new(Suit::Hearts, Rank::Ace),
        Card::new(Suit::Hearts, Rank::King),
        Card::new(Suit::Spades, Rank::Seven),
        Card::new(Suit::Spades, Rank::Eight),
        Card::new(Suit::Diamonds, Rank::Nine),
        Card::new(Suit::Diamonds, Rank::Ten),
    ];

    let hand = Hand::new(cards, 0);
    let counts = hand.calculate_trump_counts();

    assert_eq!(*counts.get("hearts").unwrap(), 4);
    assert_eq!(*counts.get("clubs").unwrap(), 2);
    assert_eq!(*counts.get("spades").unwrap(), 4);
    assert_eq!(*counts.get("diamonds").unwrap(), 4);
}

#[test]
fn test_available_bids() {
    let cards = vec![
        Card::new(Suit::Clubs, Rank::Queen),
        Card::new(Suit::Hearts, Rank::Jack),
        Card::new(Suit::Hearts, Rank::Ace),
        Card::new(Suit::Hearts, Rank::King),
        Card::new(Suit::Hearts, Rank::Ten),
        Card::new(Suit::Hearts, Rank::Nine),
        Card::new(Suit::Spades, Rank::Seven),
        Card::new(Suit::Spades, Rank::Eight),
    ];

    let hand = Hand::new(cards, 0);
    let bids = hand.get_available_bids(None);

    let heart_bids: Vec<_> = bids.iter().filter(|b| b.suit == "hearts").collect();
    assert!(!heart_bids.is_empty());
    assert!(heart_bids.iter().any(|b| b.length == 6));

    assert!(heart_bids.iter().any(|b| b.length == 5));
}

#[test]
fn test_club_preference_bidding() {
    let cards = vec![
        Card::new(Suit::Clubs, Rank::Queen),
        Card::new(Suit::Hearts, Rank::Jack),
        Card::new(Suit::Clubs, Rank::Ace),
        Card::new(Suit::Clubs, Rank::King),
        Card::new(Suit::Clubs, Rank::Ten),
        Card::new(Suit::Hearts, Rank::Nine),
        Card::new(Suit::Spades, Rank::Seven),
        Card::new(Suit::Spades, Rank::Eight),
    ];

    let hand = Hand::new(cards, 0);

    let bids = hand.get_available_bids(Some(5));
    let club_bids: Vec<_> = bids.iter().filter(|b| b.suit == "clubs").collect();

    assert!(!club_bids.is_empty());
    assert!(club_bids.iter().any(|b| b.length == 5 && b.is_club_declaration));
}

#[test]
fn test_best_bid() {
    let cards = vec![
        Card::new(Suit::Clubs, Rank::Queen),
        Card::new(Suit::Hearts, Rank::Jack),
        Card::new(Suit::Hearts, Rank::Ace),
        Card::new(Suit::Hearts, Rank::King),
        Card::new(Suit::Hearts, Rank::Ten),
        Card::new(Suit::Hearts, Rank::Nine),
        Card::new(Suit::Spades, Rank::Seven),
        Card::new(Suit::Spades, Rank::Eight),
    ];

    let hand = Hand::new(cards, 0);
    let best_bid = hand.get_best_bid().unwrap();

    assert_eq!(best_bid.length, 6);
    assert_eq!(best_bid.suit, "hearts");
}

#[test]
fn test_best_bid_prefers_clubs() {
    let cards = vec![
        Card::new(Suit::Clubs, Rank::Queen),
        Card::new(Suit::Hearts, Rank::Jack),
        Card::new(Suit::Clubs, Rank::Ace),
        Card::new(Suit::Clubs, Rank::King),
        Card::new(Suit::Clubs, Rank::Ten),
        Card::new(Suit::Hearts, Rank::Nine),
        Card::new(Suit::Spades, Rank::Seven),
        Card::new(Suit::Spades, Rank::Eight),
    ];

    let hand = Hand::new(cards, 0);
    let best_bid = hand.get_best_bid().unwrap();

    assert_eq!(best_bid.length, 5);
    assert_eq!(best_bid.suit, "clubs");
    assert!(best_bid.is_club_declaration);
}

#[test]
fn test_card_codes_conversion() {
    let cards = vec![
        Card::new(Suit::Hearts, Rank::Ace),
        Card::new(Suit::Spades, Rank::King),
    ];

    let hand = Hand::new(cards, 1);
    let codes = hand.to_codes();
    assert_eq!(codes, vec!["AH", "KS"]);

    let restored_hand = Hand::from_codes(codes, 1).unwrap();
    assert_eq!(restored_hand.cards.len(), 2);
    assert_eq!(restored_hand.player_position, 1);
}

#[test]
fn test_hand_validation() {
    let valid_cards = vec![
        Card::new(Suit::Hearts, Rank::Ace),
        Card::new(Suit::Hearts, Rank::King),
        Card::new(Suit::Hearts, Rank::Queen),
        Card::new(Suit::Hearts, Rank::Jack),
        Card::new(Suit::Spades, Rank::Ace),
        Card::new(Suit::Spades, Rank::King),
        Card::new(Suit::Spades, Rank::Queen),
        Card::new(Suit::Spades, Rank::Jack),
    ];

    let valid_hand = Hand::new(valid_cards, 0);
    assert!(valid_hand.is_valid());

    let invalid_hand = Hand::new(vec![Card::new(Suit::Hearts, Rank::Ace)], 0);
    assert!(!invalid_hand.is_valid());
}

#[test]
fn test_playable_cards() {
    let cards = vec![
        Card::new(Suit::Hearts, Rank::Ace),
        Card::new(Suit::Hearts, Rank::King),
        Card::new(Suit::Spades, Rank::Queen),
        Card::new(Suit::Clubs, Rank::Jack),
        Card::new(Suit::Spades, Rank::Seven),
        Card::new(Suit::Diamonds, Rank::Eight),
        Card::new(Suit::Diamonds, Rank::Nine),
        Card::new(Suit::Diamonds, Rank::Ten),
    ];

    let hand = Hand::new(cards, 0);

    let playable = hand.get_playable_cards(Suit::Hearts, None);
    assert_eq!(playable.len(), 8);

    let playable = hand.get_playable_cards(Suit::Hearts, Some(Suit::Diamonds));
    assert_eq!(playable.len(), 3);
}

#[test]
fn test_hand_summary() {
    let cards = vec![
        Card::new(Suit::Clubs, Rank::Queen),
        Card::new(Suit::Hearts, Rank::Jack),
        Card::new(Suit::Hearts, Rank::Ace),
        Card::new(Suit::Hearts, Rank::King),
        Card::new(Suit::Hearts, Rank::Ten),
        Card::new(Suit::Hearts, Rank::Nine),
        Card::new(Suit::Spades, Rank::Seven),
        Card::new(Suit::Spades, Rank::Eight),
    ];

    let hand = Hand::new(cards, 0);
    let summary = hand.get_summary();

    assert_eq!(summary.card_count, 8);
    assert!(summary.has_permanent_trumps);
    assert!(summary.can_bid);
    assert_eq!(summary.point_value, 30);
    assert!(summary.best_possible_bid.is_some());
}

fn hearts_hand() -> Hand {
    Hand::new(
        vec![
            Card::new(Suit::Clubs, Rank::Queen),
            Card::new(Suit::Hearts, Rank::Jack),
            Card::new(Suit::Hearts, Rank::Ace),
            Card::new(Suit::Hearts, Rank::King),
            Card::new(Suit::Hearts, Rank::Ten),
            Card::new(Suit::Hearts, Rank::Nine),
            Card::new(Suit::Spades, Rank::Seven),
            Card::new(Suit::Spades, Rank::Eight),
        ],
        0,
    )
}

#[test]
fn available_bids_are_listed_in_order() {
    let bids = hearts_hand().get_available_bids(None);
    let shown: Vec<(u8, String, String, bool)> = bids
        .into_iter()
        .map(|b| (b.length, b.suit, b.display_text, b.is_club_declaration))
        .collect();
    assert_eq!(
        shown,
        vec![
            (5, "hearts".to_string(), "5 trumps (hearts)".to_string(), false),
            (6, "hearts".to_string(), "6 trumps (hearts)".to_string(), false),
        ]
    );
    let bids = hearts_hand().get_available_bids(Some(5));
    assert_eq!(bids.len(), 1);
    assert_eq!(bids[0].length, 6);
    assert!(hearts_hand().get_available_bids(Some(6)).is_empty());
    assert!(hearts_hand().get_available_bids(Some(255)).is_empty());
}

#[test]
fn clubs_come_first_among_bids_of_one_length() {
    let hand = Hand::new(
        vec![
            Card::new(Suit::Clubs, Rank::Queen),
            Card::new(Suit::Spades, Rank::Queen),
            Card::new(Suit::Clubs, Rank::Jack),
            Card::new(Suit::Spades, Rank::Jack),
            Card::new(Suit::Hearts, Rank::Jack),
            Card::new(Suit::Clubs, Rank::Ace),
            Card::new(Suit::Hearts, Rank::Ace),
            Card::new(Suit::Diamonds, Rank::Ace),
        ],
        2,
    );
    let bids = hand.get_available_bids(None);
    let shown: Vec<(u8, String)> = bids.iter().map(|b| (b.length, b.suit.clone())).collect();
    assert_eq!(
        shown,
        vec![
            (5, "clubs".to_string()),
            (5, "hearts".to_string()),
            (5, "diamonds".to_string()),
            (5, "spades".to_string()),
            (6, "clubs".to_string()),
            (6, "hearts".to_string()),
            (6, "diamonds".to_string()),
        ]
    );
    assert!(bids[0].is_club_declaration);
    assert!(!bids[1].is_club_declaration);
    let matching = hand.get_available_bids(Some(6));
    assert_eq!(matching.len(), 1);
    assert_eq!(matching[0].length, 6);
    assert_eq!(matching[0].suit, "clubs");
    assert_eq!(matching[0].display_text, "6 trumps (clubs) - Club Declaration!");
    assert!(matching[0].is_club_declaration);
}

#[test]
fn no_bid_without_five_trumps() {
    let hand = Hand::new(
        vec![
            Card::new(Suit::Hearts, Rank::Seven),
            Card::new(Suit::Diamonds, Rank::Seven),
            Card::new(Suit::Clubs, Rank::Seven),
            Card::new(Suit::Spades, Rank::Seven),
        ],
        0,
    );
    assert!(hand.get_best_bid().is_none());
    assert!(hand.get_available_bids(None).is_empty());
    let summary = hand.get_summary();
    assert_eq!(summary.card_count, 4);
    assert!(!summary.can_bid);
    assert!(!summary.has_permanent_trumps);
    assert_eq!(summary.point_value, 0);
    assert!(summary.best_possible_bid.is_none());
    assert_eq!(*summary.trump_counts.get("clubs").unwrap(), 1);
}

#[test]
fn holding_removing_and_adding_cards() {
    let mut hand = hearts_hand();
    let nine = Card::new(Suit::Hearts, Rank::Nine);
    let missing = Card::new(Suit::Diamonds, Rank::Seven);
    assert!(hand.has_card(&nine));
    assert!(!hand.has_card(&missing));
    assert!(!hand.remove_card(&missing));
    assert_eq!(hand.cards.len(), 8);
    assert!(hand.remove_card(&nine));
    assert_eq!(hand.cards.len(), 7);
    assert!(!hand.has_card(&nine));
    assert_eq!(hand.player_position, 0);
    hand.add_card(missing);
    assert_eq!(hand.cards.len(), 8);
    let codes = hand.to_codes();
    assert_eq!(codes, vec!["QC", "7D", "10H", "JH", "KH", "AH", "7S", "8S"]);
}

#[test]
fn removing_takes_the_first_of_equal_cards() {
    let seven = Card::new(Suit::Hearts, Rank::Seven);
    let ace = Card::new(Suit::Hearts, Rank::Ace);
    let mut hand = Hand::new(vec![ace, seven, ace, seven], 3);
    assert!(hand.remove_card(&seven));
    assert_eq!(hand.cards, vec![ace, ace, seven]);
    assert_eq!(hand.player_position, 3);
}

#[test]
fn hands_from_codes() {
    let codes = vec!["AS".to_string(), "7C".to_string(), "10H".to_string()];
    let hand = Hand::from_codes(codes, 2).unwrap();
    assert_eq!(hand.to_codes(), vec!["7C", "10H", "AS"]);
    assert_eq!(hand.player_position, 2);
    let bad = Hand::from_codes(vec!["AS".to_string(), "ZZ".to_string(), "1".to_string()], 0);
    assert_eq!(bad.unwrap_err(), "Invalid rank");
    let short = Hand::from_codes(vec!["A".to_string()], 0);
    assert_eq!(short.unwrap_err(), "Card code too short");
    assert!(Hand::from_codes(Vec::new(), 0).unwrap().cards.is_empty());
}

#[test]
fn permanent_trumps_do_not_follow_their_suit() {
    let hand = Hand::new(
        vec![
            Card::new(Suit::Hearts, Rank::Jack),
            Card::new(Suit::Clubs, Rank::Queen),
            Card::new(Suit::Clubs, Rank::Seven),
            Card::new(Suit::Spades, Rank::Ace),
        ],
        0,
    );
    // The jack of hearts does not follow hearts: any card may be played.
    assert_eq!(hand.get_playable_cards(Suit::Spades, Some(Suit::Hearts)).len(), 4);
    // The queen of clubs does not follow clubs, the seven does.
    assert_eq!(
        hand.get_playable_cards(Suit::Spades, Some(Suit::Clubs)),
        vec![Card::new(Suit::Clubs, Rank::Seven)]
    );
    // The lead suit is the trump suit: its plain cards follow.
    assert_eq!(
        hand.get_playable_cards(Suit::Spades, Some(Suit::Spades)),
        vec![Card::new(Suit::Spades, Rank::Ace)]
    );
    assert_eq!(hand.point_value(), 2 + 3 + 0 + 11);
}
