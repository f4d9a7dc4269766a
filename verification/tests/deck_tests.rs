use sjavs::card::{Card, Rank, Suit};
use sjavs::deck::{sort_for_display, Deck};

fn sample_hands() -> [Vec<Card>; 4] {
    [
        vec![
            Card::new(Suit::Clubs, Rank::Queen),
            Card::new(Suit::Hearts, Rank::Jack),
            Card::new(Suit::Hearts, Rank::Ace),
            Card::new(Suit::Hearts, Rank::King),
            Card::new(Suit::Hearts, Rank::Ten),
            Card::new(Suit::Spades, Rank::Seven),
            Card::new(Suit::Spades, Rank::Eight),
            Card::new(Suit::Diamonds, Rank::Nine),
        ],
        vec![
            Card::new(Suit::Spades, Rank::Queen),
            Card::new(Suit::Diamonds, Rank::Jack),
            Card::new(Suit::Diamonds, Rank::Ace),
            Card::new(Suit::Diamonds, Rank::King),
            Card::new(Suit::Clubs, Rank::Ace),
            Card::new(Suit::Clubs, Rank::King),
            Card::new(Suit::Spades, Rank::Ace),
            Card::new(Suit::Spades, Rank::King),
        ],
        vec![
            Card::new(Suit::Clubs, Rank::Jack),
            Card::new(Suit::Spades, Rank::Jack),
            Card::new(Suit::Hearts, Rank::Seven),
            Card::new(Suit::Hearts, Rank::Eight),
            Card::new(Suit::Hearts, Rank::Nine),
            Card::new(Suit::Diamonds, Rank::Seven),
            Card::new(Suit::Diamonds, Rank::Eight),
            Card::new(Suit::Clubs, Rank::Seven),
        ],
        vec![
            Card::new(Suit::Clubs, Rank::Eight),
            Card::new(Suit::Clubs, Rank::Nine),
            Card::new(Suit::Clubs, Rank::Ten),
            Card::new(Suit::Clubs, Rank::King),
            Card::new(Suit::Spades, Rank::Nine),
            Card::new(Suit::Spades, Rank::Ten),
            Card::new(Suit::Diamonds, Rank::Ten),
            Card::new(Suit::Diamonds, Rank::Queen),
        ],
    ]
}

#[test]
fn test_deck_creation() {
    let deck = Deck::new();
    assert_eq!(deck.cards().len(), 32);
    assert!(deck.is_complete());

    for suit in [Suit::Hearts, Suit::Diamonds, Suit::Clubs, Suit::Spades] {
        let count = deck.cards().iter().filter(|c| c.suit == suit).count();
        assert_eq!(count, 8, "Should have 8 cards of each suit");
    }

    for rank in [
        Rank::Seven,
        Rank::Eight,
        Rank::Nine,
        Rank::Ten,
        Rank::Jack,
        Rank::Queen,
        Rank::King,
        Rank::Ace,
    ] {
        let count = deck.cards().iter().filter(|c| c.rank == rank).count();
        assert_eq!(count, 4, "Should have 4 cards of each rank");
    }
}

#[test]
fn test_dealing() {
    let mut deck = Deck::new();
    let hands = deck.deal().unwrap();

    for (i, hand) in hands.iter().enumerate() {
        assert_eq!(hand.len(), 8, "Player {} should have 8 cards", i);
    }

    let mut all_cards: Vec<&Card> = Vec::new();
    for hand in &hands {
        all_cards.extend(hand.iter());
    }
    assert_eq!(all_cards.len(), 32);

    for i in 0..all_cards.len() {
        for j in (i + 1)..all_cards.len() {
            assert_ne!(all_cards[i], all_cards[j], "Found duplicate card");
        }
    }
}

#[test]
fn deck_test_trump_counting() {
    let hand = vec![
        Card::new(Suit::Clubs, Rank::Queen),
        Card::new(Suit::Hearts, Rank::Jack),
        Card::new(Suit::Hearts, Rank::Ace),
        Card::new(Suit::Hearts, Rank::King),
        Card::new(Suit::Spades, Rank::Seven),
        Card::new(Suit::Diamonds, Rank::Eight),
    ];

    let counts = Deck::calculate_trump_counts(&hand);

    assert_eq!(counts[0], 4, "Hearts trump count");
    assert_eq!(counts[1], 3, "Diamonds trump count");
    assert_eq!(counts[2], 2, "Clubs trump count");
    assert_eq!(counts[3], 3, "Spades trump count");
}

#[test]
fn test_valid_hands_detection() {
    let hands = sample_hands();
    assert!(Deck::has_valid_hands(&hands), "Should detect valid hands");
}

#[test]
fn test_deal_until_valid() {
    let hands = Deck::deal_until_valid().expect("Unable to generate valid hands");

    assert!(Deck::has_valid_hands(&hands));

    assert_eq!(hands.len(), 4);
    for hand in &hands {
        assert_eq!(hand.len(), 8);
    }
}

#[test]
fn test_hand_analysis() {
    let hands = sample_hands();
    let analysis = Deck::analyze_hands(&hands);

    assert!(analysis.players_with_valid_bids >= 1);
    assert!(analysis.best_bid_length >= 5);
    assert!(!analysis.best_bid_suits.is_empty());
}

#[test]
fn hand_analysis_is_exact() {
    let hands = sample_hands();
    let analysis = Deck::analyze_hands(&hands);
    // Seat 0 holds five trumps in hearts, seat 3 five in clubs.
    assert_eq!(analysis.players_with_valid_bids, 2);
    assert_eq!(analysis.best_bid_length, 5);
    assert_eq!(analysis.best_bid_suits, vec![(0usize, "hearts".to_string())]);
    let mut totals = [0u8; 4];
    for hand in &hands {
        let counts = Deck::calculate_trump_counts(hand);
        for i in 0..4 {
            totals[i] += counts[i];
        }
    }
    assert_eq!(analysis.total_trumps_per_suit, totals);
    assert_eq!(analysis.total_trumps_per_suit, [12, 13, 13, 12]);
}

#[test]
fn hands_without_five_trumps_are_not_valid() {
    let weak = vec![
        Card::new(Suit::Hearts, Rank::Seven),
        Card::new(Suit::Hearts, Rank::Eight),
        Card::new(Suit::Diamonds, Rank::Seven),
        Card::new(Suit::Diamonds, Rank::Eight),
        Card::new(Suit::Clubs, Rank::Seven),
        Card::new(Suit::Clubs, Rank::Eight),
        Card::new(Suit::Spades, Rank::Seven),
        Card::new(Suit::Spades, Rank::Eight),
    ];
    let hands = [weak.clone(), weak.clone(), weak.clone(), weak];
    assert!(!Deck::has_valid_hands(&hands));
    let analysis = Deck::analyze_hands(&hands);
    assert_eq!(analysis.players_with_valid_bids, 0);
    assert_eq!(analysis.best_bid_length, 0);
    assert!(analysis.best_bid_suits.is_empty());
}

#[test]
fn a_fresh_deck_is_dealt_in_rotation_and_sorted() {
    let mut deck = Deck::new();
    let before = deck.cards().clone();
    let hands = deck.deal().unwrap();
    assert_eq!(deck.cards(), &before);
    for seat in 0..4 {
        let mut share: Vec<Card> = (0..8).map(|k| before[4 * k + seat]).collect();
        share.sort_by_key(|c| c.display_key());
        assert_eq!(hands[seat], share);
    }
    // Seat 0 gets the seven and the jack of each suit; clubs sort first.
    assert_eq!(hands[0][0], Card::new(Suit::Clubs, Rank::Seven));
    assert_eq!(hands[0][1], Card::new(Suit::Clubs, Rank::Jack));
    assert_eq!(hands[0][7], Card::new(Suit::Spades, Rank::Jack));
}

#[test]
fn shuffling_keeps_the_cards_and_changes_their_order() {
    let fresh = Deck::new();
    let mut changed = false;
    for _ in 0..5 {
        let mut deck = Deck::new();
        deck.shuffle();
        assert_eq!(deck.remaining_cards(), 32);
        let mut sorted = deck.cards().clone();
        sorted.sort_by_key(|c| c.display_key());
        let mut expected = fresh.cards().clone();
        expected.sort_by_key(|c| c.display_key());
        assert_eq!(sorted, expected);
        if deck.cards() != fresh.cards() {
            changed = true;
        }
    }
    assert!(changed);
}

#[test]
fn valid_deals_hold_the_whole_deck() {
    for _ in 0..20 {
        let hands = Deck::deal_until_valid().unwrap();
        let mut all: Vec<Card> = hands.iter().flatten().copied().collect();
        assert_eq!(all.len(), 32);
        all.sort_by_key(|c| c.display_key());
        all.dedup();
        assert_eq!(all.len(), 32);
        let mut found = false;
        for hand in &hands {
            assert_eq!(hand.len(), 8);
            let keys: Vec<u8> = hand.iter().map(|c| c.display_key()).collect();
            let mut sorted = keys.clone();
            sorted.sort();
            assert_eq!(keys, sorted);
            if Deck::calculate_trump_counts(hand).iter().any(|&c| c >= 5) {
                found = true;
            }
        }
        assert!(found);
    }
}

#[test]
fn sorting_for_display() {
    let cards = vec![
        Card::new(Suit::Spades, Rank::Ace),
        Card::new(Suit::Hearts, Rank::Seven),
        Card::new(Suit::Clubs, Rank::King),
        Card::new(Suit::Diamonds, Rank::Ten),
        Card::new(Suit::Clubs, Rank::Eight),
    ];
    let sorted = sort_for_display(cards);
    let codes: Vec<String> = sorted.iter().map(|c| c.code()).collect();
    assert_eq!(codes, vec!["8C", "KC", "10D", "7H", "AS"]);
    assert!(sort_for_display(Vec::new()).is_empty());
}

#[test]
fn default_deck_is_fresh() {
    let deck = Deck::default();
    assert_eq!(deck.cards(), Deck::new().cards());
    assert_eq!(deck.cards()[0], Card::new(Suit::Hearts, Rank::Seven));
    assert_eq!(deck.cards()[31], Card::new(Suit::Spades, Rank::Ace));
}

#[test]
fn a_fresh_deck_deals_a_hand_that_can_bid() {
    // Dealt in rotation, seat 0 receives the seven and the jack of every
    // suit: four permanent trumps and the seven of any trump suit.
    let mut deck = Deck::new();
    let hands = deck.deal_if_valid().expect("seat 0 holds five trumps");
    assert_eq!(deck.remaining_cards(), 32);
    assert_eq!(Deck::calculate_trump_counts(&hands[0]), [5, 5, 5, 5]);
    let dealt = deck.deal().unwrap();
    for seat in 0..4 {
        assert_eq!(hands[seat], dealt[seat]);
    }
}

#[test]
fn a_deal_is_handed_out_exactly_when_somebody_can_bid() {
    let mut handed_out = 0;
    let mut held_back = 0;
    for _ in 0..300 {
        let mut deck = Deck::new();
        deck.shuffle();
        let dealt = deck.deal().unwrap();
        let valid = Deck::has_valid_hands(&dealt);
        match deck.deal_if_valid() {
            Some(hands) => {
                assert!(valid);
                for seat in 0..4 {
                    assert_eq!(hands[seat], dealt[seat]);
                }
                handed_out += 1;
            }
            None => {
                assert!(!valid);
                held_back += 1;
            }
        }
    }
    assert_eq!(handed_out + held_back, 300);
    assert!(handed_out > 0);
}
