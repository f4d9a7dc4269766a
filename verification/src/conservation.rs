//! Card conservation: while a game is played, the hands and the tricks
//! together hold each of the 32 cards exactly once, and a complete game
//! has shared out 8 tricks and 120 card points.

use crate::card::{Card, Rank, Suit};
use crate::deck::{dealt_to, fresh_card, fresh_deck, is_deal_of, rank_at};
use crate::hand::total_points;
use crate::trick::{cards_of, points_in, GameTrickView, TrickView};
use vstd::multiset::Multiset;
use vstd::prelude::*;
use vstd::seq_lib::lemma_multiset_commutative;

verus! {

broadcast use vstd::seq_lib::group_to_multiset_ensures;

/// The cards that lie in a list of tricks, first trick first.
pub open spec fn cards_in_tricks(tricks: Seq<TrickView>) -> Seq<Card>
    decreases tricks.len(),
{
    if tricks.len() == 0 {
        Seq::empty()
    } else {
        cards_in_tricks(tricks.drop_last()) + cards_of(tricks.last().cards_played)
    }
}

/// The cards that have been played: those of the tricks that are over and,
/// while the game goes on, those of the trick in progress.
pub open spec fn cards_on_table(game: GameTrickView) -> Seq<Card> {
    if game.game_complete {
        cards_in_tricks(game.completed_tricks)
    } else {
        cards_in_tricks(game.completed_tricks) + cards_of(game.current_trick.cards_played)
    }
}

/// The cards that the four seats hold.
pub open spec fn cards_in_hands(hands: Seq<Seq<Card>>) -> Seq<Card> {
    hands[0] + hands[1] + hands[2] + hands[3]
}

/// All cards of a game: those in the hands, then those on the table.
pub open spec fn all_cards(hands: Seq<Seq<Card>>, game: GameTrickView) -> Seq<Card> {
    cards_in_hands(hands) + cards_on_table(game)
}

/// The hands and the table together hold the cards of the deck, each as
/// often as the deck does.
pub open spec fn conserved(hands: Seq<Seq<Card>>, game: GameTrickView) -> bool {
    hands.len() == 4 && all_cards(hands, game).to_multiset() == fresh_deck().to_multiset()
}

/// The card points of the first `k` cards of a suit, from the seven up.
pub open spec fn points_up_to_rank(k: int) -> int {
    if k <= 3 {
        0
    } else if k == 4 {
        10
    } else if k == 5 {
        12
    } else if k == 6 {
        15
    } else if k == 7 {
        19
    } else {
        30
    }
}

/// Adding a card adds its points.
pub proof fn lemma_total_points_push(cards: Seq<Card>, card: Card)
    ensures
        total_points(cards.push(card)) == total_points(cards) + card.spec_point_value(),
{
    assert(cards.push(card).drop_last() =~= cards);
}

/// The points of two runs of cards add up.
pub proof fn lemma_total_points_concat(a: Seq<Card>, b: Seq<Card>)
    ensures
        total_points(a + b) == total_points(a) + total_points(b),
    decreases b.len(),
{
    if b.len() == 0 {
        assert(a + b =~= a);
    } else {
        lemma_total_points_concat(a, b.drop_last());
        assert((a + b).drop_last() =~= a + b.drop_last());
    }
}

/// Taking a card away takes its points away.
pub proof fn lemma_total_points_remove(cards: Seq<Card>, i: int)
    requires
        0 <= i < cards.len(),
    ensures
        total_points(cards.remove(i)) == total_points(cards) - cards[i].spec_point_value(),
{
    let before = cards.subrange(0, i);
    let after = cards.subrange(i + 1, cards.len() as int);
    assert(cards =~= before.push(cards[i]) + after);
    assert(cards.remove(i) =~= before + after);
    lemma_total_points_concat(before.push(cards[i]), after);
    lemma_total_points_concat(before, after);
    lemma_total_points_push(before, cards[i]);
}

/// The same cards count the same points, in whatever order they come.
pub proof fn lemma_total_points_same_cards(a: Seq<Card>, b: Seq<Card>)
    requires
        a.to_multiset() == b.to_multiset(),
    ensures
        total_points(a) == total_points(b),
    decreases a.len(),
{
    assert(a.len() == b.len()) by {
        vstd::seq_lib::to_multiset_len(a);
        vstd::seq_lib::to_multiset_len(b);
    }
    if a.len() > 0 {
        let x = a.last();
        assert(a.contains(x)) by {
            assert(a[a.len() - 1] == x);
        }
        assert(a.to_multiset().count(x) > 0);
        assert(b.to_multiset().count(x) > 0);
        assert(b.contains(x));
        let j = choose|j: int| 0 <= j < b.len() && b[j] == x;
        assert(a.remove(a.len() - 1) =~= a.drop_last());
        assert(a.drop_last().to_multiset() =~= a.to_multiset().remove(x));
        assert(b.remove(j).to_multiset() =~= b.to_multiset().remove(x));
        lemma_total_points_same_cards(a.drop_last(), b.remove(j));
        lemma_total_points_remove(b, j);
    }
}

/// The card points of the first `n` cards of a fresh deck: 30 for each
/// whole suit, and what the ranks of the next suit have brought so far.
pub proof fn lemma_fresh_deck_prefix_points(n: int)
    requires
        0 <= n <= 32,
    ensures
        total_points(fresh_deck().subrange(0, n)) == 30 * (n / 8) + points_up_to_rank(n % 8),
    decreases n,
{
    let deck = fresh_deck();
    if n == 0 {
        assert(deck.subrange(0, 0) =~= Seq::<Card>::empty());
    } else {
        lemma_fresh_deck_prefix_points(n - 1);
        assert(deck.subrange(0, n) =~= deck.subrange(0, n - 1).push(deck[n - 1]));
        lemma_total_points_push(deck.subrange(0, n - 1), deck[n - 1]);
        assert(deck[n - 1] == fresh_card(n - 1));
        assert(deck[n - 1].rank == rank_at((n - 1) % 8));
    }
}

/// A fresh deck holds 120 card points.
pub proof fn lemma_fresh_deck_points()
    ensures
        total_points(fresh_deck()) == 120,
{
    lemma_fresh_deck_prefix_points(32);
    assert(fresh_deck().subrange(0, 32) =~= fresh_deck());
}

/// The position of a rank in the order seven to ace.
pub open spec fn rank_index(rank: Rank) -> int {
    match rank {
        Rank::Seven => 0,
        Rank::Eight => 1,
        Rank::Nine => 2,
        Rank::Ten => 3,
        Rank::Jack => 4,
        Rank::Queen => 5,
        Rank::King => 6,
        Rank::Ace => 7,
    }
}

/// A fresh deck holds every card exactly once.
pub proof fn lemma_fresh_deck_each_card_once(card: Card)
    ensures
        fresh_deck().no_duplicates(),
        fresh_deck().contains(card),
        fresh_deck().to_multiset().count(card) == 1,
{
    let deck = fresh_deck();
    assert forall|i: int, j: int| 0 <= i < deck.len() && 0 <= j < deck.len() && i != j implies deck[i]
        != deck[j] by {
        assert(deck[i] == fresh_card(i));
        assert(deck[j] == fresh_card(j));
        if deck[i] == deck[j] {
            assert(Suit::spec_at(i / 8) == Suit::spec_at(j / 8));
            assert(i / 8 == j / 8);
            assert(rank_at(i % 8) == rank_at(j % 8));
            assert(i % 8 == j % 8);
        }
    }
    let k = card.suit.spec_index() * 8 + rank_index(card.rank);
    assert(deck[k] == fresh_card(k));
    assert(deck[k] == card);
    deck.lemma_multiset_has_no_duplicates();
    assert(deck.to_multiset().count(card) > 0);
}

/// The first `k` cards that a seat receives in a deal.
pub open spec fn dealt_so_far(cards: Seq<Card>, seat: int, k: int) -> Seq<Card> {
    Seq::new(k as nat, |j: int| cards[4 * j + seat])
}

/// After `k` rounds of a deal the four seats hold the first `4 k` cards.
pub proof fn lemma_deal_rounds(cards: Seq<Card>, k: int)
    requires
        0 <= k,
        4 * k <= cards.len(),
    ensures
        (dealt_so_far(cards, 0, k) + dealt_so_far(cards, 1, k) + dealt_so_far(cards, 2, k)
            + dealt_so_far(cards, 3, k)).to_multiset() == cards.subrange(0, 4 * k).to_multiset(),
    decreases k,
{
    let h0 = dealt_so_far(cards, 0, k);
    let h1 = dealt_so_far(cards, 1, k);
    let h2 = dealt_so_far(cards, 2, k);
    let h3 = dealt_so_far(cards, 3, k);
    if k == 0 {
        assert(h0 + h1 + h2 + h3 =~= cards.subrange(0, 0));
    } else {
        lemma_deal_rounds(cards, k - 1);
        let g0 = dealt_so_far(cards, 0, k - 1);
        let g1 = dealt_so_far(cards, 1, k - 1);
        let g2 = dealt_so_far(cards, 2, k - 1);
        let g3 = dealt_so_far(cards, 3, k - 1);
        let n = 4 * (k - 1);
        let c0 = cards[n];
        let c1 = cards[n + 1];
        let c2 = cards[n + 2];
        let c3 = cards[n + 3];
        assert(h0 =~= g0.push(c0));
        assert(h1 =~= g1.push(c1));
        assert(h2 =~= g2.push(c2));
        assert(h3 =~= g3.push(c3));
        let p = cards.subrange(0, n);
        assert(cards.subrange(0, 4 * k) =~= p.push(c0).push(c1).push(c2).push(c3));
        lemma_multiset_commutative(g0, g1);
        lemma_multiset_commutative(g0 + g1, g2);
        lemma_multiset_commutative(g0 + g1 + g2, g3);
        lemma_multiset_commutative(h0, h1);
        lemma_multiset_commutative(h0 + h1, h2);
        lemma_multiset_commutative(h0 + h1 + h2, h3);
        let m = p.to_multiset();
        assert((h0 + h1 + h2 + h3).to_multiset() =~= m.insert(c0).insert(c1).insert(c2).insert(
            c3,
        ));
    }
}

/// A deal hands out the cards that were dealt: the four hands together
/// hold the cards of the deck, each as often as the deck does.
pub proof fn lemma_deal_conserves(hands: Seq<Vec<Card>>, cards: Seq<Card>)
    requires
        cards.len() == 32,
        is_deal_of(hands, cards),
    ensures
        (hands[0]@ + hands[1]@ + hands[2]@ + hands[3]@).to_multiset() == cards.to_multiset(),
{
    lemma_deal_rounds(cards, 8);
    assert(cards.subrange(0, 32) =~= cards);
    let d0 = dealt_to(cards, 0);
    let d1 = dealt_to(cards, 1);
    let d2 = dealt_to(cards, 2);
    let d3 = dealt_to(cards, 3);
    assert(d0 =~= dealt_so_far(cards, 0, 8));
    assert(d1 =~= dealt_so_far(cards, 1, 8));
    assert(d2 =~= dealt_so_far(cards, 2, 8));
    assert(d3 =~= dealt_so_far(cards, 3, 8));
    lemma_multiset_commutative(d0, d1);
    lemma_multiset_commutative(d0 + d1, d2);
    lemma_multiset_commutative(d0 + d1 + d2, d3);
    lemma_multiset_commutative(hands[0]@, hands[1]@);
    lemma_multiset_commutative(hands[0]@ + hands[1]@, hands[2]@);
    lemma_multiset_commutative(hands[0]@ + hands[1]@ + hands[2]@, hands[3]@);
}

/// The card points in a list of tricks are the points of the cards in
/// them.
pub proof fn lemma_points_in_tricks(tricks: Seq<TrickView>)
    ensures
        points_in(tricks) == total_points(cards_in_tricks(tricks)),
    decreases tricks.len(),
{
    if tricks.len() > 0 {
        lemma_points_in_tricks(tricks.drop_last());
        lemma_total_points_concat(
            cards_in_tricks(tricks.drop_last()),
            cards_of(tricks.last().cards_played),
        );
    }
}

/// Complete tricks hold four cards each.
pub proof fn lemma_cards_in_complete_tricks(tricks: Seq<TrickView>)
    requires
        forall|i: int| 0 <= i < tricks.len() ==> (#[trigger] tricks[i]).cards_played.len() == 4,
    ensures
        cards_in_tricks(tricks).len() == 4 * tricks.len(),
    decreases tricks.len(),
{
    if tricks.len() > 0 {
        assert forall|i: int| 0 <= i < tricks.drop_last().len() implies (
        #[trigger] tricks.drop_last()[i]).cards_played.len() == 4 by {
            assert(tricks.drop_last()[i] == tricks[i]);
        }
        lemma_cards_in_complete_tricks(tricks.drop_last());
    }
}

/// At the start of a game the cards are conserved: the hands are a deal
/// of the whole deck and nothing lies on the table.
pub proof fn lemma_new_game_conserved(hands: Seq<Vec<Card>>, cards: Seq<Card>, game: GameTrickView)
    requires
        cards.to_multiset() == fresh_deck().to_multiset(),
        is_deal_of(hands, cards),
        game.completed_tricks.len() == 0,
        game.current_trick.cards_played.len() == 0,
        !game.game_complete,
    ensures
        conserved(seq![hands[0]@, hands[1]@, hands[2]@, hands[3]@], game),
{
    assert(cards.len() == 32) by {
        vstd::seq_lib::to_multiset_len(cards);
        vstd::seq_lib::to_multiset_len(fresh_deck());
    }
    lemma_deal_conserves(hands, cards);
    let hs = seq![hands[0]@, hands[1]@, hands[2]@, hands[3]@];
    assert(cards_on_table(game) =~= Seq::<Card>::empty());
    assert(all_cards(hs, game) =~= hands[0]@ + hands[1]@ + hands[2]@ + hands[3]@);
}

/// Playing a card keeps the cards conserved: the card leaves the hand of
/// the seat and lies in the trick in progress.
pub proof fn lemma_play_conserves(
    hands: Seq<Seq<Card>>,
    game: GameTrickView,
    seat: int,
    i: int,
    after: GameTrickView,
)
    requires
        conserved(hands, game),
        !game.game_complete,
        0 <= seat < 4,
        0 <= i < hands[seat].len(),
        after.completed_tricks == game.completed_tricks,
        after.game_complete == game.game_complete,
        cards_of(after.current_trick.cards_played) == cards_of(
            game.current_trick.cards_played,
        ).push(hands[seat][i]),
    ensures
        conserved(hands.update(seat, hands[seat].remove(i)), after),
{
    let card = hands[seat][i];
    let after_hands = hands.update(seat, hands[seat].remove(i));
    let done = cards_in_tricks(game.completed_tricks);
    let lying = cards_of(game.current_trick.cards_played);
    let h0 = hands[0];
    let h1 = hands[1];
    let h2 = hands[2];
    let h3 = hands[3];
    let a0 = after_hands[0];
    let a1 = after_hands[1];
    let a2 = after_hands[2];
    let a3 = after_hands[3];
    lemma_multiset_commutative(h0, h1);
    lemma_multiset_commutative(h0 + h1, h2);
    lemma_multiset_commutative(h0 + h1 + h2, h3);
    lemma_multiset_commutative(a0, a1);
    lemma_multiset_commutative(a0 + a1, a2);
    lemma_multiset_commutative(a0 + a1 + a2, a3);
    lemma_multiset_commutative(done, lying);
    lemma_multiset_commutative(done, lying.push(card));
    lemma_multiset_commutative(h0 + h1 + h2 + h3, done + lying);
    lemma_multiset_commutative(a0 + a1 + a2 + a3, done + lying.push(card));
    assert(hands[seat].to_multiset().count(card) > 0) by {
        assert(hands[seat].contains(card));
    }
    assert(hands[seat].remove(i).to_multiset() =~= hands[seat].to_multiset().remove(card));
    assert(all_cards(after_hands, after).to_multiset() =~= all_cards(hands, game).to_multiset());
}

/// Counting a complete trick keeps the cards conserved: the trick moves
/// from the table to the tricks that are over, with the cards in it.
pub proof fn lemma_completion_conserves(hands: Seq<Seq<Card>>, game: GameTrickView)
    requires
        conserved(hands, game),
        !game.game_complete,
    ensures
        conserved(hands, game.after_completion()),
{
    let after = game.after_completion();
    let filed = game.completed_tricks.push(game.current_trick);
    assert(filed.drop_last() =~= game.completed_tricks);
    assert(cards_in_tricks(filed) == cards_in_tricks(game.completed_tricks) + cards_of(
        game.current_trick.cards_played,
    ));
    if game.current_trick.trick_number != 8 {
        assert(cards_of(after.current_trick.cards_played) =~= Seq::<Card>::empty());
        assert(cards_on_table(after) =~= cards_on_table(game));
    }
}

/// Each card is somewhere exactly once: with the cards conserved, no card
/// is in two hands, in two tricks, or in a hand and a trick, and none of
/// the 32 is missing.
pub proof fn lemma_each_card_once(hands: Seq<Seq<Card>>, game: GameTrickView, card: Card)
    requires
        conserved(hands, game),
    ensures
        all_cards(hands, game).to_multiset().count(card) == 1,
        all_cards(hands, game).no_duplicates(),
        all_cards(hands, game).len() == 32,
{
    lemma_fresh_deck_each_card_once(card);
    let all = all_cards(hands, game);
    assert forall|x: Card| all.to_multiset().contains(x) implies all.to_multiset().count(x)
        == 1 by {
        lemma_fresh_deck_each_card_once(x);
    }
    all.lemma_multiset_has_no_duplicates_conv();
    vstd::seq_lib::to_multiset_len(all);
    vstd::seq_lib::to_multiset_len(fresh_deck());
}

/// A complete game has shared out everything: the two teams have won 8
/// tricks and 120 card points between them, and the hands are empty.
pub proof fn lemma_complete_game_totals(hands: Seq<Seq<Card>>, game: GameTrickView)
    requires
        conserved(hands, game),
        game.well_formed(),
        game.game_complete,
    ensures
        game.points_accumulated.0 + game.points_accumulated.1 == 120,
        game.tricks_won.0 + game.tricks_won.1 == 8,
        cards_in_hands(hands).len() == 0,
{
    let played = cards_in_tricks(game.completed_tricks);
    let held = cards_in_hands(hands);
    lemma_cards_in_complete_tricks(game.completed_tricks);
    assert(played.len() == 32);
    assert((held + played).len() == 32) by {
        vstd::seq_lib::to_multiset_len(held + played);
        vstd::seq_lib::to_multiset_len(fresh_deck());
    }
    assert(held.len() == 0);
    assert(held + played =~= played);
    lemma_total_points_same_cards(played, fresh_deck());
    lemma_fresh_deck_points();
    lemma_points_in_tricks(game.completed_tricks);
}

/// While the cards are conserved the card points won so far never exceed
/// 120, so the counters of a game cannot overflow.
pub proof fn lemma_points_bounded(hands: Seq<Seq<Card>>, game: GameTrickView)
    requires
        conserved(hands, game),
        game.well_formed(),
    ensures
        game.points_accumulated.0 + game.points_accumulated.1 + (if game.game_complete {
            0
        } else {
            game.current_trick.points()
        }) <= 120,
        game.current_trick.points() <= 120,
{
    let played = cards_in_tricks(game.completed_tricks);
    let lying = cards_of(game.current_trick.cards_played);
    let held = cards_in_hands(hands);
    lemma_points_in_tricks(game.completed_tricks);
    lemma_total_points_same_cards(all_cards(hands, game), fresh_deck());
    lemma_fresh_deck_points();
    lemma_total_points_concat(held, cards_on_table(game));
    crate::hand::lemma_total_points_bounds(held);
    crate::hand::lemma_total_points_bounds(played);
    crate::hand::lemma_total_points_bounds(lying);
    if game.game_complete {
        let last = game.completed_tricks[7];
        assert(game.current_trick == last);
        lemma_points_of_one_trick(game.completed_tricks, 7);
    } else {
        lemma_total_points_concat(played, lying);
    }
}

/// One of the tricks holds no more points than all of them.
pub proof fn lemma_points_of_one_trick(tricks: Seq<TrickView>, i: int)
    requires
        0 <= i < tricks.len(),
    ensures
        0 <= tricks[i].points() <= points_in(tricks),
    decreases tricks.len(),
{
    crate::hand::lemma_total_points_bounds(cards_of(tricks.last().cards_played));
    lemma_points_in_tricks(tricks.drop_last());
    crate::hand::lemma_total_points_bounds(cards_in_tricks(tricks.drop_last()));
    if i < tricks.len() - 1 {
        lemma_points_of_one_trick(tricks.drop_last(), i);
        assert(tricks.drop_last()[i] == tricks[i]);
    }
}

} // verus!
