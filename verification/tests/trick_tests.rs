use sjavs::card::{Card, Rank, Suit};
use sjavs::trick::{GameTrickState, TrickState};

#[test]
fn test_trick_creation() {
    let trick = TrickState::new("game123".to_string(), 1, 0, "hearts".to_string());

    assert_eq!(trick.trick_number, 1);
    assert_eq!(trick.current_player, 0);
    assert!(!trick.is_complete);
    assert!(trick.lead_suit.is_none());
    assert_eq!(trick.cards_played.len(), 0);
}

#[test]
fn test_play_card() {
    let mut trick = TrickState::new("game123".to_string(), 1, 0, "hearts".to_string());

    let card = Card::new(Suit::Spades, Rank::Ace);

    assert!(trick.play_card(0, card).is_ok());
    assert_eq!(trick.lead_suit, Some(Suit::Spades));
    assert_eq!(trick.current_player, 1);
    assert!(!trick.is_complete);
}

#[test]
fn test_complete_trick() {
    let mut trick = TrickState::new("game123".to_string(), 1, 0, "hearts".to_string());

    trick.play_card(0, Card::new(Suit::Spades, Rank::Seven)).unwrap();
    trick.play_card(1, Card::new(Suit::Spades, Rank::Eight)).unwrap();
    trick.play_card(2, Card::new(Suit::Spades, Rank::Nine)).unwrap();
    trick.play_card(3, Card::new(Suit::Spades, Rank::Ace)).unwrap();

    assert!(trick.is_complete);
    assert_eq!(trick.trick_winner, Some(3));
}

#[test]
fn test_follow_suit_validation() {
    let trick = TrickState {
        trick_number: 1,
        lead_suit: Some(Suit::Hearts),
        cards_played: vec![(0, Card::new(Suit::Hearts, Rank::Seven))],
        current_player: 1,
        trick_winner: None,
        is_complete: false,
        game_id: "test".to_string(),
        trump_suit: "spades".to_string(),
    };

    let hand = vec![
        Card::new(Suit::Hearts, Rank::Ace),
        Card::new(Suit::Spades, Rank::King),
    ];

    let legal_cards = trick.get_legal_cards(&hand);
    assert_eq!(legal_cards.len(), 1);
    assert_eq!(legal_cards[0].suit, Suit::Hearts);
}

#[test]
fn cards_out_of_turn_are_refused() {
    let mut trick = TrickState::new("g".to_string(), 1, 2, "hearts".to_string());
    let card = Card::new(Suit::Spades, Rank::Ace);
    assert_eq!(
        trick.play_card(0, card),
        Err("Not your turn. Current player is 2".to_string())
    );
    assert!(trick.cards_played.is_empty());
    assert!(trick.lead_suit.is_none());
    trick.play_card(2, card).unwrap();
    trick.play_card(3, Card::new(Suit::Spades, Rank::King)).unwrap();
    trick.play_card(0, Card::new(Suit::Spades, Rank::Ten)).unwrap();
    trick.play_card(1, Card::new(Suit::Hearts, Rank::Seven)).unwrap();
    assert!(trick.is_complete);
    // The seven of trumps takes the trick from the ace.
    assert_eq!(trick.trick_winner, Some(1));
    assert_eq!(trick.current_player, 1);
    assert_eq!(trick.calculate_points(), 11 + 4 + 10);
    assert_eq!(
        trick.play_card(1, Card::new(Suit::Hearts, Rank::Eight)),
        Err("Trick is already complete".to_string())
    );
    assert_eq!(trick.determine_winner(), 1);
}

#[test]
fn a_full_trick_that_is_not_marked_complete_takes_no_card() {
    let mut trick = TrickState {
        trick_number: 1,
        lead_suit: Some(Suit::Hearts),
        cards_played: vec![
            (0, Card::new(Suit::Hearts, Rank::Seven)),
            (1, Card::new(Suit::Hearts, Rank::Eight)),
            (2, Card::new(Suit::Hearts, Rank::Nine)),
            (3, Card::new(Suit::Hearts, Rank::Ten)),
        ],
        current_player: 0,
        trick_winner: None,
        is_complete: false,
        game_id: "g".to_string(),
        trump_suit: "clubs".to_string(),
    };
    assert_eq!(
        trick.play_card(0, Card::new(Suit::Hearts, Rank::Ace)),
        Err("Trick already has 4 cards".to_string())
    );
}

#[test]
fn winners_by_trump_and_lead() {
    let play = |trump: &str, cards: [(Suit, Rank); 4]| {
        let mut trick = TrickState::new("g".to_string(), 1, 0, trump.to_string());
        for (seat, (suit, rank)) in cards.into_iter().enumerate() {
            trick.play_card(seat, Card::new(suit, rank)).unwrap();
        }
        trick.trick_winner.unwrap()
    };
    // Highest of the lead suit wins where nobody trumps.
    assert_eq!(
        play(
            "clubs",
            [
                (Suit::Hearts, Rank::Ten),
                (Suit::Hearts, Rank::Ace),
                (Suit::Diamonds, Rank::Ace),
                (Suit::Hearts, Rank::King)
            ]
        ),
        1
    );
    // Off-suit cards never win.
    assert_eq!(
        play(
            "clubs",
            [
                (Suit::Hearts, Rank::Seven),
                (Suit::Diamonds, Rank::Ace),
                (Suit::Spades, Rank::Ace),
                (Suit::Diamonds, Rank::King)
            ]
        ),
        0
    );
    // A permanent trump beats the trump ace; the queen of clubs beats them all.
    assert_eq!(
        play(
            "hearts",
            [
                (Suit::Hearts, Rank::Ace),
                (Suit::Diamonds, Rank::Jack),
                (Suit::Clubs, Rank::Queen),
                (Suit::Spades, Rank::Queen)
            ]
        ),
        2
    );
    // The ten ranks below the king among trumps of the suit.
    assert_eq!(
        play(
            "spades",
            [
                (Suit::Spades, Rank::Ten),
                (Suit::Spades, Rank::King),
                (Suit::Spades, Rank::Nine),
                (Suit::Hearts, Rank::Ace)
            ]
        ),
        1
    );
}

#[test]
fn trick_summary_and_next_trick() {
    let mut trick = TrickState::new("g".to_string(), 3, 1, "hearts".to_string());
    let summary = trick.get_summary();
    assert_eq!(summary.trick_number, 3);
    assert_eq!(summary.cards_played, 0);
    assert_eq!(summary.current_player, Some(1));
    assert_eq!(summary.lead_suit, None);
    assert!(!summary.is_complete);
    assert_eq!(summary.winner, None);
    trick.play_card(1, Card::new(Suit::Diamonds, Rank::Ten)).unwrap();
    let summary = trick.get_summary();
    assert_eq!(summary.cards_played, 1);
    assert_eq!(summary.current_player, Some(2));
    assert_eq!(summary.lead_suit, Some("D".to_string()));
    assert_eq!(trick.calculate_points(), 10);
    let copy = trick.clone();
    assert_eq!(copy.cards_played, trick.cards_played);
    assert_eq!(copy.trump_suit, "hearts");
    trick.start_next_trick(0);
    assert_eq!(trick.trick_number, 4);
    assert_eq!(trick.current_player, 0);
    assert!(trick.cards_played.is_empty());
    assert!(trick.lead_suit.is_none());
    assert_eq!(trick.game_id, "g");
}

fn play_trick(game: &mut GameTrickState, cards: [Card; 4]) {
    let leader = game.current_trick.current_player;
    for (i, card) in cards.into_iter().enumerate() {
        game.current_trick.play_card((leader + i) % 4, card).unwrap();
    }
}

#[test]
fn completing_tricks_counts_points_and_tricks() {
    let mut game = GameTrickState::new("g".to_string(), 1, "hearts".to_string(), (0, 2));
    assert_eq!(
        game.complete_trick().unwrap_err(),
        "Current trick is not complete".to_string()
    );
    assert!(game.get_final_scoring().is_err());
    // Seat 1 leads the ace of spades; seat 2 trumps with the seven of hearts.
    play_trick(
        &mut game,
        [
            Card::new(Suit::Spades, Rank::Ace),
            Card::new(Suit::Hearts, Rank::Seven),
            Card::new(Suit::Spades, Rank::Ten),
            Card::new(Suit::Spades, Rank::King),
        ],
    );
    let report = game.complete_trick().unwrap();
    assert_eq!(report.winner, 2);
    assert_eq!(report.points, 25);
    assert!(report.trump_team_won);
    assert!(!report.game_complete);
    assert_eq!(report.next_leader, Some(2));
    assert_eq!(game.tricks_won, (1, 0));
    assert_eq!(game.points_accumulated, (25, 0));
    assert_eq!(game.completed_tricks.len(), 1);
    assert_eq!(game.completed_tricks[0].trick_number, 1);
    assert_eq!(game.current_trick.trick_number, 2);
    assert_eq!(game.current_trick.current_player, 2);
    assert!(!game.game_complete);
    assert!(!game.check_individual_vol());
    // Seat 2 leads; seat 3 takes the trick for the opponents.
    play_trick(
        &mut game,
        [
            Card::new(Suit::Diamonds, Rank::Seven),
            Card::new(Suit::Diamonds, Rank::Ace),
            Card::new(Suit::Diamonds, Rank::Eight),
            Card::new(Suit::Diamonds, Rank::Nine),
        ],
    );
    let report = game.complete_trick().unwrap();
    assert_eq!(report.winner, 3);
    assert!(!report.trump_team_won);
    assert_eq!(game.tricks_won, (1, 1));
    assert_eq!(game.points_accumulated, (25, 11));
}

fn won_by(seat: usize, number: u8) -> TrickState {
    TrickState {
        trick_number: number,
        lead_suit: Some(Suit::Hearts),
        cards_played: Vec::new(),
        current_player: seat,
        trick_winner: Some(seat),
        is_complete: true,
        game_id: "g".to_string(),
        trump_suit: "hearts".to_string(),
    }
}

#[test]
fn individual_vol_takes_one_seat_for_all_eight_tricks() {
    let mut game = GameTrickState::new("g".to_string(), 0, "hearts".to_string(), (0, 2));
    game.tricks_won = (8, 0);
    game.points_accumulated = (120, 0);
    game.game_complete = true;
    game.completed_tricks = (1..=8).map(|n| won_by(2, n)).collect();
    assert!(game.check_individual_vol());
    let scoring = game.get_final_scoring().unwrap();
    assert!(scoring.individual_vol);
    assert_eq!(scoring.trump_suit, "hearts");
    assert_eq!(scoring.trump_team_tricks, 8);
    assert_eq!(scoring.trump_team_points, 120);
    // One trick by the partner: a vol, but no individual one.
    game.completed_tricks[5] = won_by(0, 6);
    assert!(!game.check_individual_vol());
    assert!(!game.get_final_scoring().unwrap().individual_vol);
    // Eight tricks by one opponent are no individual vol either.
    game.tricks_won = (0, 8);
    game.completed_tricks = (1..=8).map(|n| won_by(1, n)).collect();
    assert!(!game.check_individual_vol());
}
