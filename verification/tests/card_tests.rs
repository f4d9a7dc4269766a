use sjavs::card::{Card, Rank, Suit};

#[test]
fn test_card_codes() {
    let ace_spades = Card::new(Suit::Spades, Rank::Ace);
    assert_eq!(ace_spades.code(), "AS");

    let ten_hearts = Card::new(Suit::Hearts, Rank::Ten);
    assert_eq!(ten_hearts.code(), "10H");

    let seven_clubs = Card::new(Suit::Clubs, Rank::Seven);
    assert_eq!(seven_clubs.code(), "7C");
}

#[test]
fn test_card_from_code() {
    let card = Card::from_code("AS").unwrap();
    assert_eq!(card.suit, Suit::Spades);
    assert_eq!(card.rank, Rank::Ace);

    let card = Card::from_code("10H").unwrap();
    assert_eq!(card.suit, Suit::Hearts);
    assert_eq!(card.rank, Rank::Ten);
}

#[test]
fn test_permanent_trumps() {
    let club_queen = Card::new(Suit::Clubs, Rank::Queen);
    assert!(club_queen.is_permanent_trump());

    let spade_queen = Card::new(Suit::Spades, Rank::Queen);
    assert!(spade_queen.is_permanent_trump());

    let heart_jack = Card::new(Suit::Hearts, Rank::Jack);
    assert!(heart_jack.is_permanent_trump());

    let heart_ace = Card::new(Suit::Hearts, Rank::Ace);
    assert!(!heart_ace.is_permanent_trump());
}

#[test]
fn test_trump_hierarchy() {
    let club_queen = Card::new(Suit::Clubs, Rank::Queen);
    let spade_queen = Card::new(Suit::Spades, Rank::Queen);
    let heart_jack = Card::new(Suit::Hearts, Rank::Jack);
    let heart_ace = Card::new(Suit::Hearts, Rank::Ace);

    assert!(club_queen.trump_order(Suit::Hearts) > spade_queen.trump_order(Suit::Hearts));
    assert!(club_queen.trump_order(Suit::Hearts) > heart_jack.trump_order(Suit::Hearts));
    assert!(club_queen.trump_order(Suit::Hearts) > heart_ace.trump_order(Suit::Hearts));

    assert!(spade_queen.trump_order(Suit::Hearts) > heart_ace.trump_order(Suit::Hearts));
    assert!(heart_jack.trump_order(Suit::Hearts) > heart_ace.trump_order(Suit::Hearts));
}

#[test]
fn test_trump_vs_non_trump() {
    let club_queen = Card::new(Suit::Clubs, Rank::Queen);
    let heart_ace = Card::new(Suit::Hearts, Rank::Ace);
    let spade_ace = Card::new(Suit::Spades, Rank::Ace);

    assert!(club_queen.beats(&heart_ace, Suit::Hearts, Suit::Hearts));
    assert!(heart_ace.beats(&spade_ace, Suit::Hearts, Suit::Spades));
    assert!(spade_ace.beats(&heart_ace, Suit::Clubs, Suit::Spades));
}

#[test]
fn test_point_values() {
    assert_eq!(Card::new(Suit::Hearts, Rank::Ace).point_value(), 11);
    assert_eq!(Card::new(Suit::Hearts, Rank::King).point_value(), 4);
    assert_eq!(Card::new(Suit::Hearts, Rank::Queen).point_value(), 3);
    assert_eq!(Card::new(Suit::Hearts, Rank::Jack).point_value(), 2);
    assert_eq!(Card::new(Suit::Hearts, Rank::Ten).point_value(), 10);
    assert_eq!(Card::new(Suit::Hearts, Rank::Seven).point_value(), 0);
}

#[test]
fn test_suit_from_string() {
    assert_eq!(Suit::from("hearts"), Suit::Hearts);
    assert_eq!(Suit::from("h"), Suit::Hearts);
    assert_eq!(Suit::from("CLUBS"), Suit::Clubs);
    assert_eq!(Suit::from("D"), Suit::Diamonds);
}

fn all_suits() -> Vec<Suit> {
    vec![Suit::Hearts, Suit::Diamonds, Suit::Clubs, Suit::Spades]
}

fn all_ranks() -> Vec<Rank> {
    vec![
        Rank::Seven,
        Rank::Eight,
        Rank::Nine,
        Rank::Ten,
        Rank::Jack,
        Rank::Queen,
        Rank::King,
        Rank::Ace,
    ]
}

fn all_cards() -> Vec<Card> {
    let mut cards = Vec::new();
    for suit in all_suits() {
        for rank in all_ranks() {
            cards.push(Card::new(suit, rank));
        }
    }
    cards
}

#[test]
fn code_round_trip_for_all_cards() {
    let cards = all_cards();
    assert_eq!(cards.len(), 32);
    for card in cards {
        assert_eq!(Card::from_code(&card.code()), Ok(card));
        assert_eq!(card.to_string(), card.code());
    }
}

#[test]
fn card_codes_with_suit_names_and_any_case() {
    assert_eq!(Card::from_code("Qc"), Ok(Card::new(Suit::Clubs, Rank::Queen)));
    assert_eq!(Card::from_code("10spades"), Ok(Card::new(Suit::Spades, Rank::Ten)));
    assert_eq!(Card::from_code("7Diamonds"), Ok(Card::new(Suit::Diamonds, Rank::Seven)));
}

#[test]
fn malformed_card_codes_are_refused() {
    assert_eq!(Card::from_code(""), Err("Card code too short".to_string()));
    assert_eq!(Card::from_code("A"), Err("Card code too short".to_string()));
    assert_eq!(Card::from_code("10"), Err("Invalid suit".to_string()));
    assert_eq!(Card::from_code("1H"), Err("Invalid rank".to_string()));
    assert_eq!(Card::from_code("XS"), Err("Invalid rank".to_string()));
    assert_eq!(Card::from_code("AX"), Err("Invalid suit".to_string()));
    assert_eq!(Card::from_code("aS"), Err("Invalid rank".to_string()));
}

#[test]
fn suit_and_rank_texts() {
    assert_eq!(Suit::parse("Spades"), Some(Suit::Spades));
    assert_eq!(Suit::parse("x"), None);
    assert_eq!(Suit::from_name("clubs"), Some(Suit::Clubs));
    assert_eq!(Suit::from_name("Clubs"), None);
    assert_eq!(Suit::from_name("c"), None);
    assert_eq!(Suit::Hearts.name(), "hearts");
    assert_eq!(Suit::Diamonds.to_string(), "D");
    assert_eq!(Rank::parse("10"), Some(Rank::Ten));
    assert_eq!(Rank::parse("j"), None);
    assert_eq!(Rank::from("K"), Rank::King);
    assert_eq!(Rank::Ten.to_string(), "10");
    assert_eq!(Rank::Ace.value(), 14);
    assert_eq!(Rank::Seven.value(), 7);
    for (i, suit) in all_suits().into_iter().enumerate() {
        assert_eq!(suit.index(), i);
        assert_eq!(Suit::at(i), suit);
        assert_eq!(Suit::from_name(suit.name()), Some(suit));
    }
}

#[test]
fn trump_orders_are_exact() {
    let order = |suit, rank, trump| Card::new(suit, rank).trump_order(trump);
    assert_eq!(order(Suit::Clubs, Rank::Queen, Suit::Hearts), Some(20));
    assert_eq!(order(Suit::Spades, Rank::Queen, Suit::Hearts), Some(19));
    assert_eq!(order(Suit::Clubs, Rank::Jack, Suit::Hearts), Some(18));
    assert_eq!(order(Suit::Spades, Rank::Jack, Suit::Hearts), Some(17));
    assert_eq!(order(Suit::Hearts, Rank::Jack, Suit::Spades), Some(16));
    assert_eq!(order(Suit::Diamonds, Rank::Jack, Suit::Spades), Some(15));
    assert_eq!(order(Suit::Hearts, Rank::Ace, Suit::Hearts), Some(14));
    assert_eq!(order(Suit::Hearts, Rank::King, Suit::Hearts), Some(13));
    assert_eq!(order(Suit::Hearts, Rank::Queen, Suit::Hearts), Some(12));
    assert_eq!(order(Suit::Diamonds, Rank::Queen, Suit::Diamonds), Some(12));
    assert_eq!(order(Suit::Hearts, Rank::Ten, Suit::Hearts), Some(11));
    assert_eq!(order(Suit::Hearts, Rank::Nine, Suit::Hearts), Some(10));
    assert_eq!(order(Suit::Hearts, Rank::Eight, Suit::Hearts), Some(9));
    assert_eq!(order(Suit::Hearts, Rank::Seven, Suit::Hearts), Some(8));
    assert_eq!(order(Suit::Hearts, Rank::Ace, Suit::Spades), None);
    assert_eq!(Card::new(Suit::Hearts, Rank::Ten).non_trump_order(), 10);
    assert_eq!(Card::new(Suit::Hearts, Rank::Jack).non_trump_order(), 11);
}

#[test]
fn beats_is_a_strict_order_on_the_cards_in_contention() {
    let cards = all_cards();
    for trump in all_suits() {
        for lead in all_suits() {
            for a in &cards {
                assert!(!a.beats(a, trump, lead));
                assert_eq!(a.is_trump(trump), a.is_permanent_trump() || a.suit == trump);
                for b in &cards {
                    let ab = a.beats(b, trump, lead);
                    let ba = b.beats(a, trump, lead);
                    assert!(!(ab && ba));
                    let a_in = a.is_trump(trump) || a.suit == lead;
                    let b_in = b.is_trump(trump) || b.suit == lead;
                    if a != b && (a_in || b_in) {
                        assert!(ab != ba);
                    }
                    if !a_in && !b_in {
                        assert!(!ab && !ba);
                    }
                    for c in &cards {
                        if ab && b.beats(c, trump, lead) {
                            assert!(a.beats(c, trump, lead));
                        }
                    }
                }
            }
        }
    }
}

#[test]
fn deck_holds_120_points_and_six_permanent_trumps() {
    let cards = all_cards();
    let points: u32 = cards.iter().map(|c| c.point_value() as u32).sum();
    assert_eq!(points, 120);
    assert_eq!(cards.iter().filter(|c| c.is_permanent_trump()).count(), 6);
    let mut keys: Vec<u8> = cards.iter().map(|c| c.display_key()).collect();
    keys.sort();
    keys.dedup();
    assert_eq!(keys.len(), 32);
}
