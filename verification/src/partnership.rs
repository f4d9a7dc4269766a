//! Who plays with the declarer: the seat that holds the strongest permanent
//! trump outside the declarer's hand.
//!
//! Where the declarer holds the strongest permanent trump of all, the
//! partner is still sought among the other three seats, by the strongest
//! permanent trump that they hold. Only where none of them holds any does
//! the seat across the table become the partner.

use crate::card::Card;
use crate::normal_match::{next_seat, opposite_seat, seat_across, seat_after};
use crate::relay::opponents_of;
use vstd::prelude::*;

verus! {

/// The strength of the strongest permanent trump among the cards, from 15
/// to 20; 0 where they hold none.
pub open spec fn strongest_permanent(cards: Seq<Card>) -> int
    decreases cards.len(),
{
    if cards.len() == 0 {
        0
    } else {
        let before = strongest_permanent(cards.drop_last());
        let last = cards.last();
        if last.spec_is_permanent_trump() && last.permanent_trump_order() > before {
            last.permanent_trump_order()
        } else {
            before
        }
    }
}

/// Of two seats the one with the stronger permanent trump, the first where
/// neither is stronger.
pub open spec fn stronger_seat(hands: Seq<Seq<Card>>, a: usize, b: usize) -> usize {
    if strongest_permanent(hands[b as int]) > strongest_permanent(hands[a as int]) {
        b
    } else {
        a
    }
}

/// The seat, other than the declarer, with the strongest permanent trump.
pub open spec fn strongest_other_seat(hands: Seq<Seq<Card>>, declarer: usize) -> usize {
    let left = next_seat(declarer);
    let across = next_seat(left);
    let right = next_seat(across);
    stronger_seat(hands, stronger_seat(hands, left, across), right)
}

/// The partner of the declarer: the other seat with the strongest
/// permanent trump, or the seat across where the others hold none.
pub open spec fn partner_of(hands: Seq<Seq<Card>>, declarer: usize) -> usize {
    let best = strongest_other_seat(hands, declarer);
    if strongest_permanent(hands[best as int]) == 0 {
        opposite_seat(declarer)
    } else {
        best
    }
}

/// The hands of a table as plain values.
pub open spec fn hand_views(hands: Seq<Vec<Card>>) -> Seq<Seq<Card>> {
    Seq::new(hands.len(), |i: int| hands[i]@)
}

/// The strength found is that of a permanent trump among the cards, and
/// no permanent trump among them is stronger.
pub proof fn lemma_strongest_permanent(cards: Seq<Card>)
    ensures
        strongest_permanent(cards) == 0 || 15 <= strongest_permanent(cards) <= 20,
        strongest_permanent(cards) > 0 ==> exists|i: int|
            0 <= i < cards.len() && (#[trigger] cards[i]).spec_is_permanent_trump()
                && cards[i].permanent_trump_order() == strongest_permanent(cards),
        forall|i: int|
            0 <= i < cards.len() && (#[trigger] cards[i]).spec_is_permanent_trump()
                ==> cards[i].permanent_trump_order() <= strongest_permanent(cards),
    decreases cards.len(),
{
    if cards.len() > 0 {
        let rest = cards.drop_last();
        lemma_strongest_permanent(rest);
        let last = cards.last();
        if last.spec_is_permanent_trump() && last.permanent_trump_order() > strongest_permanent(
            rest,
        ) {
            assert(cards[cards.len() - 1] == last);
        } else if strongest_permanent(rest) > 0 {
            let i = choose|i: int|
                0 <= i < rest.len() && (#[trigger] rest[i]).spec_is_permanent_trump()
                    && rest[i].permanent_trump_order() == strongest_permanent(rest);
            assert(cards[i] == rest[i]);
        }
        assert forall|i: int|
            0 <= i < cards.len() && (#[trigger] cards[i]).spec_is_permanent_trump()
                implies cards[i].permanent_trump_order() <= strongest_permanent(cards) by {
            if i < rest.len() {
                assert(cards[i] == rest[i]);
            }
        }
    }
}

/// The partner is a seat at the table other than the declarer, and no
/// other seat but the declarer holds a permanent trump stronger than the
/// partner's strongest.
pub proof fn lemma_partner_holds_strongest(hands: Seq<Seq<Card>>, declarer: usize)
    requires
        hands.len() == 4,
        declarer < 4,
    ensures
        partner_of(hands, declarer) < 4,
        partner_of(hands, declarer) != declarer,
        forall|seat: int, i: int|
            0 <= seat < 4 && seat != declarer && 0 <= i < hands[seat].len() && (
            #[trigger] hands[seat][i]).spec_is_permanent_trump()
                ==> hands[seat][i].permanent_trump_order() <= strongest_permanent(
                hands[partner_of(hands, declarer) as int],
            ),
{
    let partner = partner_of(hands, declarer);
    assert forall|seat: int, i: int|
        0 <= seat < 4 && seat != declarer && 0 <= i < hands[seat].len() && (
        #[trigger] hands[seat][i]).spec_is_permanent_trump()
            implies hands[seat][i].permanent_trump_order() <= strongest_permanent(
        hands[partner as int],
    ) by {
        lemma_strongest_permanent(hands[seat]);
    }
}

/// The two teams take the four seats: the declarer, the partner and the
/// two opponents are four different seats of the table.
pub proof fn lemma_teams_take_every_seat(hands: Seq<Seq<Card>>, declarer: usize)
    requires
        hands.len() == 4,
        declarer < 4,
    ensures
        ({
            let partner = partner_of(hands, declarer);
            let (first, second) = opponents_of(declarer, partner);
            &&& partner < 4 && first < 4 && second < 4
            &&& partner != declarer && first != declarer && second != declarer
            &&& first != partner && second != partner && first != second
        }),
{
}

/// The strength of the strongest permanent trump among the cards.
pub fn strongest_permanent_in(cards: &Vec<Card>) -> (best: u8)
    ensures
        best == strongest_permanent(cards@),
{
    let mut best: u8 = 0;
    let mut i: usize = 0;
    assert(cards@.subrange(0, 0) =~= Seq::<Card>::empty());
    while i < cards.len()
        invariant
            i <= cards@.len(),
            best == strongest_permanent(cards@.subrange(0, i as int)),
        decreases cards@.len() - i,
    {
        proof {
            assert(cards@.subrange(0, i + 1).drop_last() =~= cards@.subrange(0, i as int));
        }
        let card = cards[i];
        if card.is_permanent_trump() {
            match card.trump_order(card.suit) {
                Some(order) => {
                    if order > best {
                        best = order;
                    }
                },
                None => {},
            }
        }
        i += 1;
    }
    assert(cards@.subrange(0, cards@.len() as int) =~= cards@);
    best
}

/// Finds the partner of the declarer from the dealt hands.
pub fn determine_partner(hands: &[Vec<Card>; 4], declarer: usize) -> (partner: usize)
    ensures
        partner == partner_of(hand_views(hands@), declarer),
        partner < 4,
{
    let left = seat_after(declarer);
    let across = seat_after(left);
    let right = seat_after(across);
    let mut best = left;
    let mut strength = strongest_permanent_in(&hands[left]);
    let s = strongest_permanent_in(&hands[across]);
    if s > strength {
        best = across;
        strength = s;
    }
    let s = strongest_permanent_in(&hands[right]);
    if s > strength {
        best = right;
        strength = s;
    }
    if strength == 0 {
        seat_across(declarer)
    } else {
        best
    }
}

} // verus!
