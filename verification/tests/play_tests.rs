use sjavs::card::{Card, Rank, Suit};
use sjavs::deck::Deck;
use sjavs::errors::ErrorKind;
use sjavs::events::TrickEvent;
use sjavs::hand::Hand;
use sjavs::normal_match::NormalMatchStatus;
use sjavs::partnership::{determine_partner, strongest_permanent_in};
use sjavs::commands::StoreStep;
use sjavs::play::{after_play, is_legal_play, is_playable, play_card};
use sjavs::trick::TrickState;
use sjavs::trick::GameTrickState;

fn card(code: &str) -> Card {
    Card::from_code(code).unwrap()
}

fn hand(codes: &[&str], seat: usize) -> Hand {
    Hand::new(codes.iter().map(|c| card(c)).collect(), seat)
}

fn spades_game(leader: usize) -> GameTrickState {
    GameTrickState::new("g1".to_string(), leader, "spades".to_string(), (0, 2))
}

#[test]
fn follow_suit_is_enforced() {
    // Seat 2 leads the nine of hearts; spades are trump.
    let mut tricks = spades_game(2);
    tricks.current_trick.play_card(2, card("9H")).unwrap();
    let seat3 = || hand(&["AH", "8H", "QC", "7S"], 3);
    assert_eq!(
        tricks.current_trick.get_legal_cards(&seat3().cards),
        vec![card("AH"), card("8H")]
    );
    let refused = play_card(
        NormalMatchStatus::Playing,
        Some(3),
        Some(tricks.clone()),
        Some(seat3()),
        "QC",
    )
    .unwrap_err();
    assert_eq!(refused.kind, ErrorKind::IllegalMove);
    assert_eq!(refused.error, "Illegal card play");
    assert_eq!(refused.kind.status_code(), 400);
    let refused = play_card(
        NormalMatchStatus::Playing,
        Some(3),
        Some(tricks.clone()),
        Some(seat3()),
        "7S",
    )
    .unwrap_err();
    assert_eq!(refused.kind, ErrorKind::IllegalMove);
    let played = play_card(
        NormalMatchStatus::Playing,
        Some(3),
        Some(tricks.clone()),
        Some(seat3()),
        "AH",
    )
    .unwrap();
    assert_eq!(played.seat, 3);
    assert_eq!(played.card, card("AH"));
    assert_eq!(played.hand.cards, vec![card("8H"), card("QC"), card("7S")]);
    assert_eq!(played.hand.player_position, 3);
    assert_eq!(
        played.tricks.current_trick.cards_played,
        vec![(2, card("9H")), (3, card("AH"))]
    );
    assert_eq!(played.tricks.current_trick.current_player, 0);
    assert!(played.completion.is_none());
    assert_eq!(played.events.len(), 1);
    match &played.events[0] {
        TrickEvent::CardPlayed {
            game_id,
            player_position,
            card,
            trick_number,
            cards_in_trick,
            next_player,
            trick_complete,
            trick_winner,
            points_won,
        } => {
            assert_eq!(game_id, "g1");
            assert_eq!(*player_position, 3);
            assert_eq!(card, "AH");
            assert_eq!(*trick_number, 1);
            assert_eq!(*cards_in_trick, 2);
            assert_eq!(*next_player, Some(0));
            assert!(!*trick_complete);
            assert_eq!(*trick_winner, None);
            assert_eq!(*points_won, 0);
        }
        _ => panic!("wrong event"),
    }
    assert_eq!(played.events[0].game_id(), "g1");
    assert_eq!(played.events[0].name(), "card_played");
}

#[test]
fn plays_are_refused_in_order() {
    let tricks = || {
        let mut t = spades_game(1);
        t.current_trick.play_card(1, card("9H")).unwrap();
        t
    };
    let seat2 = || hand(&["AH", "7S"], 2);
    let refusal = |status, seat, t: Option<GameTrickState>, h: Option<Hand>, code: &str| {
        let e = play_card(status, seat, t, h, code).unwrap_err();
        (e.kind, e.error, e.message)
    };
    assert_eq!(
        refusal(NormalMatchStatus::Bidding, None, None, None, "??"),
        (ErrorKind::Conflict, "Game is not in playing phase".to_string(), None)
    );
    assert_eq!(
        refusal(NormalMatchStatus::Playing, None, None, None, "??"),
        (ErrorKind::NotFound, "Player not in game".to_string(), None)
    );
    assert_eq!(
        refusal(NormalMatchStatus::Playing, Some(2), None, None, "??"),
        (ErrorKind::NotFound, "No active trick found".to_string(), None)
    );
    assert_eq!(
        refusal(NormalMatchStatus::Playing, Some(3), Some(tricks()), None, "??"),
        (ErrorKind::NotYourTurn, "Not your turn to play".to_string(), None)
    );
    assert_eq!(
        refusal(NormalMatchStatus::Playing, Some(2), Some(tricks()), None, "??"),
        (ErrorKind::NotFound, "Player hand not found".to_string(), None)
    );
    assert_eq!(
        refusal(NormalMatchStatus::Playing, Some(2), Some(tricks()), Some(seat2()), "??"),
        (
            ErrorKind::IllegalMove,
            "Invalid card code".to_string(),
            Some("Invalid rank".to_string())
        )
    );
    assert_eq!(
        refusal(NormalMatchStatus::Playing, Some(2), Some(tricks()), Some(seat2()), "8H"),
        (ErrorKind::IllegalMove, "Card not in hand".to_string(), None)
    );
    assert_eq!(
        refusal(NormalMatchStatus::Playing, Some(2), Some(tricks()), Some(seat2()), "7S"),
        (ErrorKind::IllegalMove, "Illegal card play".to_string(), None)
    );
    let mut broken = tricks();
    broken.current_trick.trump_suit = "stars".to_string();
    assert_eq!(
        refusal(NormalMatchStatus::Playing, Some(2), Some(broken), Some(seat2()), "AH"),
        (ErrorKind::Fatal, "Failed to play card".to_string(), None)
    );
    let mut over = tricks();
    over.points_accumulated = (121, 0);
    assert!(!is_playable(&over));
    assert!(is_playable(&tricks()));
    assert!(is_legal_play(&seat2(), Some(Suit::Hearts), card("AH")));
    assert!(!is_legal_play(&seat2(), Some(Suit::Hearts), card("7S")));
    assert!(is_legal_play(&seat2(), Some(Suit::Diamonds), card("7S")));
    assert!(is_legal_play(&seat2(), None, card("7S")));
    assert!(!is_legal_play(&seat2(), None, card("8S")));
}

#[test]
fn the_fourth_card_completes_the_trick() {
    let mut tricks = spades_game(0);
    tricks.current_trick.play_card(0, card("10H")).unwrap();
    tricks.current_trick.play_card(1, card("KH")).unwrap();
    tricks.current_trick.play_card(2, card("AH")).unwrap();
    let played = play_card(
        NormalMatchStatus::Playing,
        Some(3),
        Some(tricks),
        Some(hand(&["7D", "8C"], 3)),
        "7D",
    )
    .unwrap();
    let report = played.completion.unwrap();
    assert_eq!(report.winner, 2);
    assert_eq!(report.points, 25);
    assert!(report.trump_team_won);
    assert!(!report.game_complete);
    assert_eq!(report.next_leader, Some(2));
    assert_eq!(played.tricks.tricks_won, (1, 0));
    assert_eq!(played.tricks.points_accumulated, (25, 0));
    assert_eq!(played.tricks.current_trick.trick_number, 2);
    assert_eq!(played.tricks.current_trick.current_player, 2);
    assert!(played.tricks.current_trick.cards_played.is_empty());
    assert_eq!(played.tricks.completed_tricks.len(), 1);
    assert_eq!(played.events.len(), 2);
    match &played.events[1] {
        TrickEvent::TrickCompleted {
            game_id,
            trick_number,
            winner,
            points,
            trump_team_score,
            opponent_team_score,
            game_complete,
        } => {
            assert_eq!(game_id, "g1");
            assert_eq!(*trick_number, 1);
            assert_eq!(*winner, 2);
            assert_eq!(*points, 25);
            assert_eq!(*trump_team_score, 25);
            assert_eq!(*opponent_team_score, 0);
            assert!(!*game_complete);
        }
        _ => panic!("wrong event"),
    }
    assert_eq!(played.events[1].name(), "trick_completed");
    match &played.events[0] {
        TrickEvent::CardPlayed { next_player, trick_complete, trick_winner, points_won, .. } => {
            assert_eq!(*next_player, None);
            assert!(*trick_complete);
            assert_eq!(*trick_winner, Some(2));
            assert_eq!(*points_won, 25);
        }
        _ => panic!("wrong event"),
    }
}

#[test]
fn whole_games_share_out_every_card_once() {
    for round in 0..10 {
        let dealt = Deck::deal_until_valid().unwrap();
        let mut hands: Vec<Hand> = dealt
            .iter()
            .enumerate()
            .map(|(seat, cards)| Hand::new(cards.clone(), seat))
            .collect();
        let trump = ["hearts", "diamonds", "clubs", "spades"][round % 4];
        let declarer = round % 4;
        let partner = determine_partner(&dealt, declarer);
        assert_ne!(partner, declarer);
        let mut tricks =
            GameTrickState::new("sim".to_string(), (round + 1) % 4, trump.to_string(), (declarer, partner));
        let mut seen: Vec<Card> = Vec::new();
        let mut plays = 0;
        while !tricks.game_complete {
            let seat = tricks.current_trick.current_player;
            let legal = tricks.current_trick.get_legal_cards(&hands[seat].cards);
            assert!(!legal.is_empty());
            let choice = legal[(plays + round) % legal.len()];
            let held = hands[seat].cards.len();
            let outcome = play_card(
                NormalMatchStatus::Playing,
                Some(seat),
                Some(tricks),
                Some(Hand::new(hands[seat].cards.clone(), seat)),
                &choice.code(),
            )
            .unwrap();
            assert_eq!(outcome.hand.cards.len(), held - 1);
            assert!(!seen.contains(&choice));
            seen.push(choice);
            hands[seat] = outcome.hand;
            tricks = outcome.tricks;
            plays += 1;
            let in_hands: usize = hands.iter().map(|h| h.cards.len()).sum();
            assert_eq!(in_hands + seen.len(), 32);
            assert!(
                tricks.points_accumulated.0 as u32 + tricks.points_accumulated.1 as u32 <= 120
            );
        }
        assert_eq!(plays, 32);
        assert_eq!(tricks.tricks_won.0 + tricks.tricks_won.1, 8);
        assert_eq!(tricks.points_accumulated.0 as u32 + tricks.points_accumulated.1 as u32, 120);
        assert_eq!(tricks.completed_tricks.len(), 8);
        assert!(hands.iter().all(|h| h.cards.is_empty()));
        let mut all = seen.clone();
        all.sort_by_key(|c| c.display_key());
        all.dedup();
        assert_eq!(all.len(), 32);
        for (i, trick) in tricks.completed_tricks.iter().enumerate() {
            assert_eq!(trick.trick_number as usize, i + 1);
            assert_eq!(trick.cards_played.len(), 4);
            let winner = trick.trick_winner.unwrap();
            let lead = trick.lead_suit.unwrap();
            let trump_suit = Suit::from(trump);
            let winning = trick.cards_played.iter().find(|(s, _)| *s == winner).unwrap().1;
            for (s, c) in &trick.cards_played {
                if *s != winner {
                    assert!(winning.beats(c, trump_suit, lead));
                    assert!(!c.beats(&winning, trump_suit, lead));
                }
            }
        }
        let scoring = tricks.get_final_scoring().unwrap();
        assert!(scoring.validate_total_points());
        let refused = play_card(
            NormalMatchStatus::Playing,
            Some(tricks.current_trick.current_player),
            Some(tricks),
            Some(hand(&["AH"], 0)),
            "AH",
        );
        assert!(refused.is_err());
    }
}

#[test]
fn the_partner_holds_the_strongest_permanent_trump() {
    let hands = [
        vec![card("QC"), card("AH")],
        vec![card("JD"), card("7H")],
        vec![card("QS"), card("8H")],
        vec![card("JC"), card("9H")],
    ];
    assert_eq!(strongest_permanent_in(&hands[0]), 20);
    assert_eq!(strongest_permanent_in(&hands[1]), 15);
    assert_eq!(strongest_permanent_in(&hands[2]), 19);
    assert_eq!(strongest_permanent_in(&hands[3]), 18);
    assert_eq!(strongest_permanent_in(&vec![card("AS"), card("QH"), card("QD")]), 0);
    // The declarer's own queen of clubs does not count.
    assert_eq!(determine_partner(&hands, 0), 2);
    assert_eq!(determine_partner(&hands, 1), 0);
    assert_eq!(determine_partner(&hands, 2), 0);
    assert_eq!(determine_partner(&hands, 3), 0);
    let plain = [vec![card("QC")], vec![card("AH")], vec![card("AS")], vec![card("AD")]];
    // Nobody else holds a permanent trump: the seat across.
    assert_eq!(determine_partner(&plain, 0), 2);
    assert_eq!(determine_partner(&plain, 1), 0);
    assert_eq!(determine_partner(&plain, 3), 0);
}

#[test]
fn what_follows_a_play() {
    // A card that completes no trick.
    let mut tricks = spades_game(0);
    let played = play_card(
        NormalMatchStatus::Playing,
        Some(0),
        Some(tricks.clone()),
        Some(hand(&["10H", "7C"], 0)),
        "10H",
    )
    .unwrap();
    let next = after_play("g1", &played);
    assert_eq!(next.plan, vec![StoreStep::WriteHand, StoreStep::WriteTrickState]);
    assert_eq!(next.response.message, "Card played successfully");
    assert_eq!(next.response.game_id, "g1");
    assert_eq!(next.response.card_played, "10H");
    assert_eq!(next.response.player_position, 0);
    assert_eq!(next.response.trick_info.cards_played_in_trick, 1);
    assert_eq!(next.response.trick_info.current_player, Some(1));
    assert!(!next.completes_game);
    // The fourth card of the first trick.
    tricks.current_trick.play_card(0, card("10H")).unwrap();
    tricks.current_trick.play_card(1, card("KH")).unwrap();
    tricks.current_trick.play_card(2, card("AH")).unwrap();
    let played = play_card(
        NormalMatchStatus::Playing,
        Some(3),
        Some(tricks),
        Some(hand(&["7D", "8C"], 3)),
        "7D",
    )
    .unwrap();
    let next = after_play("g1", &played);
    assert_eq!(
        next.plan,
        vec![StoreStep::WriteHand, StoreStep::WriteTrickHistory, StoreStep::WriteTrickState]
    );
    assert_eq!(next.response.message, "Card played - Trick 1 complete!");
    assert_eq!(next.response.card_played, "7D");
    assert_eq!(next.response.player_position, 3);
    assert_eq!(next.response.trick_info.trump_team_tricks, 1);
    assert_eq!(next.response.trick_info.trump_team_points, 25);
    assert_eq!(next.response.trick_info.current_trick_number, 2);
    assert!(!next.completes_game);
}

#[test]
fn the_last_card_of_a_game_calls_for_scoring() {
    let dealt = Deck::deal_until_valid().unwrap();
    let mut hands: Vec<Hand> =
        dealt.iter().enumerate().map(|(seat, cards)| Hand::new(cards.clone(), seat)).collect();
    let mut tricks = GameTrickState::new("g1".to_string(), 1, "hearts".to_string(), (0, 2));
    let mut plays = 0;
    while !tricks.game_complete {
        let seat = tricks.current_trick.current_player;
        let choice = tricks.current_trick.get_legal_cards(&hands[seat].cards)[0];
        let played = play_card(
            NormalMatchStatus::Playing,
            Some(seat),
            Some(tricks),
            Some(Hand::new(hands[seat].cards.clone(), seat)),
            &choice.code(),
        )
        .unwrap();
        plays += 1;
        let next = after_play("g1", &played);
        assert_eq!(next.completes_game, plays == 32);
        assert_eq!(next.plan.len(), if plays % 4 == 0 { 3 } else { 2 });
        if plays == 32 {
            assert_eq!(next.response.message, "Card played - Game complete!");
            assert!(next.response.trick_info.game_complete);
        } else if plays % 4 == 0 {
            assert_eq!(
                next.response.message,
                format!("Card played - Trick {} complete!", plays / 4)
            );
        }
        hands[seat] = played.hand;
        tricks = played.tricks;
    }
    assert_eq!(plays, 32);
}

#[test]
fn a_seat_off_turn_is_refused_whatever_the_trump_is_called() {
    let mut trick = TrickState::new("g1".to_string(), 1, 0, "no such suit".to_string());
    trick.play_card(0, card("10H")).unwrap();
    trick.play_card(1, card("KH")).unwrap();
    trick.play_card(2, card("AH")).unwrap();
    assert_eq!(
        trick.play_card(0, card("7D")),
        Err("Not your turn. Current player is 3".to_string())
    );
    assert_eq!(trick.cards_played.len(), 3);
}

#[test]
fn the_winner_of_a_trick_holds_the_card_that_beats_the_others() {
    let mut trick = TrickState::new("g1".to_string(), 1, 2, "spades".to_string());
    trick.play_card(2, card("9H")).unwrap();
    trick.play_card(3, card("AH")).unwrap();
    trick.play_card(0, card("7S")).unwrap();
    trick.play_card(1, card("JD")).unwrap();
    assert!(trick.is_complete);
    assert_eq!(trick.trick_winner, Some(1));
    let winning = card("JD");
    for other in ["9H", "AH", "7S"] {
        assert!(winning.beats(&card(other), Suit::Spades, Suit::Hearts));
        assert!(!card(other).beats(&winning, Suit::Spades, Suit::Hearts));
    }
}
