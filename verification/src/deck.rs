//! The 32-card deck: its composition, dealing, and the rule that a deal
//! counts only when somebody can bid.

use crate::card::{suit_name, Card, Rank, Suit};
use crate::hand::most_trumps;
use rand::seq::SliceRandom;
use vstd::multiset::Multiset;
use vstd::prelude::*;
use vstd::string::*;

verus! {

broadcast use vstd::seq_lib::group_to_multiset_ensures;

/// How often [`Deck::deal_until_valid`] shuffles before it gives up.
pub const MAX_DEAL_ATTEMPTS: u32 = 1000;

/// The rank at a position of the order seven, eight, ..., king, ace.
pub open spec fn rank_at(i: int) -> Rank {
    if i == 0 {
        Rank::Seven
    } else if i == 1 {
        Rank::Eight
    } else if i == 2 {
        Rank::Nine
    } else if i == 3 {
        Rank::Ten
    } else if i == 4 {
        Rank::Jack
    } else if i == 5 {
        Rank::Queen
    } else if i == 6 {
        Rank::King
    } else {
        Rank::Ace
    }
}

/// The card at a position of a fresh deck: suit by suit, each from the
/// seven up to the ace.
pub open spec fn fresh_card(i: int) -> Card {
    Card { suit: Suit::spec_at(i / 8), rank: rank_at(i % 8) }
}

/// A fresh deck of 32 cards.
pub open spec fn fresh_deck() -> Seq<Card> {
    Seq::new(32, |i: int| fresh_card(i))
}

/// The cards that a seat receives when 32 cards are dealt one at a time in
/// rotation: the cards at positions `seat`, `seat + 4`, `seat + 8`, ...
pub open spec fn dealt_to(cards: Seq<Card>, seat: int) -> Seq<Card> {
    Seq::new(8, |k: int| cards[4 * k + seat])
}

/// Cards are in display order: by suit letter, then by rank.
pub open spec fn display_sorted(cards: Seq<Card>) -> bool {
    forall|i: int, j: int|
        0 <= i < j < cards.len() ==> (#[trigger] cards[i]).sort_key() <= (
        #[trigger] cards[j]).sort_key()
}

/// How many of the cards are trump when `suit` is the trump suit.
pub open spec fn count_trumps(cards: Seq<Card>, suit: Suit) -> nat
    decreases cards.len(),
{
    if cards.len() == 0 {
        0
    } else {
        count_trumps(cards.drop_last(), suit) + if cards.last().spec_is_trump(suit) {
            1nat
        } else {
            0nat
        }
    }
}

/// Somebody can bid on these cards: five or more of them are trump under
/// some trump suit.
pub open spec fn can_bid(cards: Seq<Card>) -> bool {
    exists|s: int| 0 <= s < 4 && #[trigger] count_trumps(cards, Suit::spec_at(s)) >= 5
}

/// At least one of the four hands can bid.
pub open spec fn some_hand_can_bid(hands: Seq<Vec<Card>>) -> bool {
    exists|p: int| 0 <= p < hands.len() && can_bid(#[trigger] hands[p]@)
}

/// What a deal of `cards` hands to the four seats: each seat's share of the
/// rotation, in display order.
pub open spec fn is_deal_of(hands: Seq<Vec<Card>>, cards: Seq<Card>) -> bool {
    &&& hands.len() == 4
    &&& forall|p: int|
        0 <= p < 4 ==> {
            &&& (#[trigger] hands[p])@.len() == 8
            &&& display_sorted(hands[p]@)
            &&& hands[p]@.to_multiset() == dealt_to(cards, p).to_multiset()
        }
}

/// The count of trumps never exceeds the number of cards.
pub proof fn lemma_count_trumps_bound(cards: Seq<Card>, suit: Suit)
    ensures
        count_trumps(cards, suit) <= cards.len(),
    decreases cards.len(),
{
    if cards.len() > 0 {
        lemma_count_trumps_bound(cards.drop_last(), suit);
    }
}

/// Somebody can bid once these cards are dealt: the share of some seat
/// holds five or more trumps under some trump suit.
pub open spec fn deal_lets_bid(cards: Seq<Card>) -> bool {
    exists|p: int| 0 <= p < 4 && can_bid(#[trigger] dealt_to(cards, p))
}

/// Two runs of cards count their trumps one after the other.
pub proof fn lemma_count_trumps_concat(a: Seq<Card>, b: Seq<Card>, suit: Suit)
    ensures
        count_trumps(a + b, suit) == count_trumps(a, suit) + count_trumps(b, suit),
    decreases b.len(),
{
    if b.len() == 0 {
        assert(a + b =~= a);
    } else {
        lemma_count_trumps_concat(a, b.drop_last(), suit);
        assert((a + b).drop_last() =~= a + b.drop_last());
    }
}

/// Taking a card away takes it out of the count if it is trump.
pub proof fn lemma_count_trumps_remove(cards: Seq<Card>, i: int, suit: Suit)
    requires
        0 <= i < cards.len(),
    ensures
        count_trumps(cards, suit) == count_trumps(cards.remove(i), suit) + if cards[i].spec_is_trump(
            suit,
        ) {
            1nat
        } else {
            0nat
        },
{
    let before = cards.subrange(0, i);
    let after = cards.subrange(i + 1, cards.len() as int);
    assert(cards =~= before.push(cards[i]) + after);
    assert(cards.remove(i) =~= before + after);
    assert(before.push(cards[i]).drop_last() =~= before);
    lemma_count_trumps_concat(before.push(cards[i]), after, suit);
    lemma_count_trumps_concat(before, after, suit);
}

/// The same cards hold the same number of trumps, in whatever order they
/// come.
pub proof fn lemma_count_trumps_same_cards(a: Seq<Card>, b: Seq<Card>, suit: Suit)
    requires
        a.to_multiset() == b.to_multiset(),
    ensures
        count_trumps(a, suit) == count_trumps(b, suit),
    decreases a.len(),
{
    assert(a.len() == b.len()) by {
        vstd::seq_lib::to_multiset_len(a);
        vstd::seq_lib::to_multiset_len(b);
    }
    if a.len() > 0 {
        let x = a.last();
        assert(a.contains(x)) by {
            assert(a[a.len() - 1] == x);
        }
        assert(a.to_multiset().count(x) > 0);
        assert(b.to_multiset().count(x) > 0);
        assert(b.contains(x));
        let j = choose|j: int| 0 <= j < b.len() && b[j] == x;
        assert(a.remove(a.len() - 1) =~= a.drop_last());
        assert(a.drop_last().to_multiset() =~= a.to_multiset().remove(x));
        assert(b.remove(j).to_multiset() =~= b.to_multiset().remove(x));
        lemma_count_trumps_same_cards(a.drop_last(), b.remove(j), suit);
        lemma_count_trumps_remove(b, j, suit);
    }
}

/// Whether somebody can bid does not depend on the order within the
/// hands: the hands of a deal let somebody bid exactly when the shares
/// that they were sorted from do.
pub proof fn lemma_deal_lets_bid(hands: Seq<Vec<Card>>, cards: Seq<Card>)
    requires
        is_deal_of(hands, cards),
    ensures
        some_hand_can_bid(hands) == deal_lets_bid(cards),
{
    assert forall|p: int| 0 <= p < 4 implies can_bid(#[trigger] hands[p]@) == can_bid(
        dealt_to(cards, p),
    ) by {
        assert forall|s: int| 0 <= s < 4 implies #[trigger] count_trumps(
            hands[p]@,
            Suit::spec_at(s),
        ) == count_trumps(dealt_to(cards, p), Suit::spec_at(s)) by {
            lemma_count_trumps_same_cards(hands[p]@, dealt_to(cards, p), Suit::spec_at(s));
        }
        if can_bid(hands[p]@) {
            let s = choose|s: int|
                0 <= s < 4 && #[trigger] count_trumps(hands[p]@, Suit::spec_at(s)) >= 5;
            assert(count_trumps(dealt_to(cards, p), Suit::spec_at(s)) >= 5);
        }
        if can_bid(dealt_to(cards, p)) {
            let s = choose|s: int|
                0 <= s < 4 && #[trigger] count_trumps(dealt_to(cards, p), Suit::spec_at(s)) >= 5;
            assert(count_trumps(hands[p]@, Suit::spec_at(s)) >= 5);
        }
    }
    if some_hand_can_bid(hands) {
        let p = choose|p: int| 0 <= p < hands.len() && can_bid(#[trigger] hands[p]@);
        assert(can_bid(dealt_to(cards, p)));
    }
    if deal_lets_bid(cards) {
        let p = choose|p: int| 0 <= p < 4 && can_bid(#[trigger] dealt_to(cards, p));
        assert(can_bid(hands[p]@));
    }
}

/// Brings cards into display order: by suit letter, then by rank.
pub fn sort_for_display(cards: Vec<Card>) -> (sorted: Vec<Card>)
    ensures
        display_sorted(sorted@),
        sorted@.to_multiset() == cards@.to_multiset(),
        sorted@.len() == cards@.len(),
{
    let ghost given = cards@;
    let mut rest = cards;
    let mut sorted: Vec<Card> = Vec::new();
    while rest.len() > 0
        invariant
            display_sorted(sorted@),
            forall|i: int, j: int|
                0 <= i < sorted@.len() && 0 <= j < rest@.len() ==> (#[trigger] sorted@[i]).sort_key()
                    <= (#[trigger] rest@[j]).sort_key(),
            sorted@.to_multiset().add(rest@.to_multiset()) == given.to_multiset(),
            sorted@.len() + rest@.len() == given.len(),
        decreases rest@.len(),
    {
        let mut best: usize = 0;
        let mut k: usize = 1;
        while k < rest.len()
            invariant
                0 <= best < rest@.len(),
                1 <= k <= rest@.len(),
                forall|j: int| 0 <= j < k ==> rest@[best as int].sort_key() <= (#[trigger] rest@[j]).sort_key(),
            decreases rest@.len() - k,
        {
            if rest[k].display_key() < rest[best].display_key() {
                best = k;
            }
            k += 1;
        }
        let ghost before = rest@;
        let ghost sorted_before = sorted@;
        let card = rest.remove(best);
        sorted.push(card);
        proof {
            assert(rest@.to_multiset() =~= before.to_multiset().remove(card));
            assert(sorted@.to_multiset() =~= sorted_before.to_multiset().insert(card));
            assert(before.contains(card));
            assert(before.to_multiset().count(card) > 0);
            assert(sorted@.to_multiset().add(rest@.to_multiset()) =~= sorted_before.to_multiset().add(
                before.to_multiset(),
            ));
            assert forall|i: int, j: int|
                0 <= i < sorted@.len() && 0 <= j < rest@.len() implies (#[trigger] sorted@[i]).sort_key()
                <= (#[trigger] rest@[j]).sort_key() by {
                if j < best {
                    assert(rest@[j] == before[j]);
                } else {
                    assert(rest@[j] == before[j + 1]);
                }
                if i < sorted_before.len() {
                    assert(sorted@[i] == sorted_before[i]);
                }
            }
        }
    }
    proof {
        assert(rest@ =~= Seq::<Card>::empty());
        assert(rest@.to_multiset() =~= Multiset::<Card>::empty());
        assert(sorted@.to_multiset().add(Multiset::<Card>::empty()) =~= sorted@.to_multiset());
    }
    sorted
}

/// Puts the cards into an order that chance picks.
///
/// Calls `shuffle` of `rand::seq::SliceRandom` with the thread's generator.
/// It only swaps elements of the slice, so the same cards are there
/// afterwards, each as often as before; nothing is claimed of the order.
#[verifier::external_body]
fn shuffle_cards(cards: &mut Vec<Card>)
    ensures
        final(cards)@.to_multiset() == old(cards)@.to_multiset(),
        final(cards)@.len() == old(cards)@.len(),
{
    cards.shuffle(&mut rand::thread_rng());
}

/// What a deal holds for the bidding.
#[derive(Debug)]
pub struct HandAnalysis {
    /// For each suit in the order hearts, diamonds, clubs, spades: the
    /// trumps of the four hands together, were that suit trump.
    pub total_trumps_per_suit: [u8; 4],
    /// How many hands can bid.
    pub players_with_valid_bids: u8,
    /// The longest bid that any hand can make, 0 where none can bid.
    pub best_bid_length: u8,
    /// The first seat that can make the longest bid, with each suit in
    /// which it can.
    pub best_bid_suits: Vec<(usize, String)>,
}

/// The trumps that the first `n` hands hold together under a trump suit.
pub open spec fn trump_total(hands: Seq<Vec<Card>>, suit: Suit, n: int) -> nat
    decreases n,
{
    if n <= 0 {
        0
    } else {
        trump_total(hands, suit, n - 1) + count_trumps(hands[n - 1]@, suit)
    }
}

/// How many of the first `n` hands can bid.
pub open spec fn bidders_among(hands: Seq<Vec<Card>>, n: int) -> nat
    decreases n,
{
    if n <= 0 {
        0
    } else {
        bidders_among(hands, n - 1) + if most_trumps(hands[n - 1]@) >= 5 {
            1nat
        } else {
            0nat
        }
    }
}

/// The longest bid that one of the first `n` hands can make, 0 where
/// none can bid.
pub open spec fn longest_bid(hands: Seq<Vec<Card>>, n: int) -> nat
    decreases n,
{
    if n <= 0 {
        0
    } else {
        let before = longest_bid(hands, n - 1);
        let here = most_trumps(hands[n - 1]@);
        if here >= 5 && here > before {
            here
        } else {
            before
        }
    }
}

/// The first of the first `n` seats that can make the longest bid, -1
/// where none can bid.
pub open spec fn longest_bidder(hands: Seq<Vec<Card>>, n: int) -> int
    decreases n,
{
    if n <= 0 {
        -1
    } else {
        let here = most_trumps(hands[n - 1]@);
        if here >= 5 && here > longest_bid(hands, n - 1) {
            n - 1
        } else {
            longest_bidder(hands, n - 1)
        }
    }
}

/// The names of the first `k` suits, in the order hearts, diamonds,
/// clubs, spades, under which the cards hold exactly `count` trumps.
pub open spec fn suits_with(cards: Seq<Card>, count: nat, k: int) -> Seq<Seq<char>>
    decreases k,
{
    if k <= 0 {
        Seq::empty()
    } else if count_trumps(cards, Suit::spec_at(k - 1)) == count {
        suits_with(cards, count, k - 1).push(suit_name(Suit::spec_at(k - 1)))
    } else {
        suits_with(cards, count, k - 1)
    }
}

/// A deck of cards.
#[derive(Debug, Clone)]
pub struct Deck {
    cards: Vec<Card>,
}

impl View for Deck {
    type V = Seq<Card>;

    closed spec fn view(&self) -> Seq<Card> {
        self.cards@
    }
}

impl Deck {
    /// A fresh deck of 32 cards: every suit with the ranks from the seven
    /// up to the ace.
    pub fn new() -> (deck: Deck)
        ensures
            deck@ == fresh_deck(),
    {
        let mut cards: Vec<Card> = Vec::new();
        let mut s: usize = 0;
        while s < 4
            invariant
                s <= 4,
                cards@.len() == 8 * s,
                forall|i: int| 0 <= i < cards@.len() ==> cards@[i] == fresh_card(i),
            decreases 4 - s,
        {
            let suit = Suit::at(s);
            cards.push(Card::new(suit, Rank::Seven));
            cards.push(Card::new(suit, Rank::Eight));
            cards.push(Card::new(suit, Rank::Nine));
            cards.push(Card::new(suit, Rank::Ten));
            cards.push(Card::new(suit, Rank::Jack));
            cards.push(Card::new(suit, Rank::Queen));
            cards.push(Card::new(suit, Rank::King));
            cards.push(Card::new(suit, Rank::Ace));
            s += 1;
        }
        assert(cards@ =~= fresh_deck());
        Deck { cards }
    }

    /// The cards of the deck, top first.
    pub fn cards(&self) -> (cards: &Vec<Card>)
        ensures
            cards@ == self@,
    {
        &self.cards
    }

    /// Shuffles the deck: the same cards, in an order that chance picks.
    pub fn shuffle(&mut self)
        ensures
            final(self)@.to_multiset() == old(self)@.to_multiset(),
            final(self)@.len() == old(self)@.len(),
    {
        shuffle_cards(&mut self.cards);
    }

    /// The share of one seat, in display order.
    fn deal_seat(&self, seat: usize) -> (hand: Vec<Card>)
        requires
            self@.len() == 32,
            seat < 4,
        ensures
            hand@.len() == 8,
            display_sorted(hand@),
            hand@.to_multiset() == dealt_to(self@, seat as int).to_multiset(),
    {
        let mut hand: Vec<Card> = Vec::new();
        let mut k: usize = 0;
        while k < 8
            invariant
                k <= 8,
                seat < 4,
                self.cards@.len() == 32,
                hand@.len() == k,
                forall|j: int| 0 <= j < k ==> hand@[j] == self.cards@[4 * j + seat],
            decreases 8 - k,
        {
            hand.push(self.cards[4 * k + seat]);
            k += 1;
        }
        assert(hand@ =~= dealt_to(self@, seat as int));
        sort_for_display(hand)
    }

    /// Deals the 32 cards to four seats, one card at a time in rotation, and
    /// puts each hand into display order. A deck that does not hold exactly
    /// 32 cards is refused. The deck itself stays as it was.
    pub fn deal(&mut self) -> (res: Result<[Vec<Card>; 4], String>)
        ensures
            final(self)@ == old(self)@,
            res is Ok <==> old(self)@.len() == 32,
            res matches Ok(hands) ==> is_deal_of(hands@, old(self)@),
            res matches Err(e) ==> e@ == "Deck must have exactly 32 cards to deal"@,
    {
        if self.cards.len() != 32 {
            return Err(String::from_str("Deck must have exactly 32 cards to deal"));
        }
        let h0 = self.deal_seat(0);
        let h1 = self.deal_seat(1);
        let h2 = self.deal_seat(2);
        let h3 = self.deal_seat(3);
        let hands = [h0, h1, h2, h3];
        Ok(hands)
    }

    /// For each suit in the order hearts, diamonds, clubs, spades: how many
    /// of the cards would be trump if that suit were the trump suit.
    pub fn calculate_trump_counts(hand: &[Card]) -> (counts: [u8; 4])
        requires
            hand@.len() <= u8::MAX,
        ensures
            forall|s: int| 0 <= s < 4 ==> counts@[s] == count_trumps(hand@, #[trigger] Suit::spec_at(s)),
    {
        let mut counts: [u8; 4] = [0u8; 4];
        let mut s: usize = 0;
        while s < 4
            invariant
                s <= 4,
                hand@.len() <= u8::MAX,
                forall|t: int| 0 <= t < s ==> counts@[t] == count_trumps(hand@, #[trigger] Suit::spec_at(t)),
            decreases 4 - s,
        {
            let suit = Suit::at(s);
            let mut n: u8 = 0;
            let mut i: usize = 0;
            while i < hand.len()
                invariant
                    i <= hand@.len(),
                    hand@.len() <= u8::MAX,
                    n == count_trumps(hand@.subrange(0, i as int), suit),
                    n <= i,
                decreases hand@.len() - i,
            {
                proof {
                    assert(hand@.subrange(0, i + 1).drop_last() =~= hand@.subrange(0, i as int));
                }
                if hand[i].is_trump(suit) {
                    n += 1;
                }
                i += 1;
            }
            assert(hand@.subrange(0, hand@.len() as int) =~= hand@);
            counts[s] = n;
            s += 1;
        }
        counts
    }

    /// Whether at least one of the four hands holds five or more trumps
    /// under some trump suit, which is what a bid takes.
    pub fn has_valid_hands(hands: &[Vec<Card>; 4]) -> (valid: bool)
        requires
            forall|p: int| 0 <= p < 4 ==> (#[trigger] hands@[p])@.len() <= u8::MAX,
        ensures
            valid == some_hand_can_bid(hands@),
    {
        let mut p: usize = 0;
        while p < 4
            invariant
                p <= 4,
                forall|q: int| 0 <= q < 4 ==> (#[trigger] hands@[q])@.len() <= u8::MAX,
                forall|q: int| 0 <= q < p ==> !can_bid(#[trigger] hands@[q]@),
            decreases 4 - p,
        {
            let counts = Deck::calculate_trump_counts(hands[p].as_slice());
            let mut s: usize = 0;
            while s < 4
                invariant
                    s <= 4,
                    0 <= p < 4,
                    forall|t: int|
                        0 <= t < 4 ==> counts@[t] == count_trumps(hands@[p as int]@, #[trigger] Suit::spec_at(t)),
                    forall|t: int|
                        0 <= t < s ==> count_trumps(hands@[p as int]@, #[trigger] Suit::spec_at(t)) < 5,
                decreases 4 - s,
            {
                if counts[s] >= 5 {
                    assert(count_trumps(hands@[p as int]@, Suit::spec_at(s as int)) >= 5);
                    assert(can_bid(hands@[p as int]@));
                    return true;
                }
                s += 1;
            }
            p += 1;
        }
        false
    }

    /// Deals the deck as it lies and hands the deal out if somebody can bid
    /// on it. `None` means that the deck does not hold 32 cards, or that no
    /// seat would hold five trumps under any trump suit. The deck itself
    /// stays as it was.
    pub fn deal_if_valid(&mut self) -> (res: Option<[Vec<Card>; 4]>)
        ensures
            final(self)@ == old(self)@,
            res is Some <==> old(self)@.len() == 32 && deal_lets_bid(old(self)@),
            res matches Some(hands) ==> is_deal_of(hands@, old(self)@) && some_hand_can_bid(
                hands@,
            ),
    {
        match self.deal() {
            Ok(hands) => {
                proof {
                    lemma_deal_lets_bid(hands@, self@);
                }
                if Deck::has_valid_hands(&hands) {
                    Some(hands)
                } else {
                    None
                }
            },
            Err(_) => None,
        }
    }

    /// Shuffles a fresh deck and deals it, again and again until somebody
    /// can bid, at most [`MAX_DEAL_ATTEMPTS`] times. Each attempt is one
    /// call of [`Deck::deal_if_valid`] on a fresh deck that has been
    /// shuffled. `None` means that no attempt gave such a deal.
    ///
    /// Every deal that comes back hands each seat eight cards in display
    /// order, all 32 cards of the deck among them, and lets somebody bid.
    pub fn deal_until_valid() -> (res: Option<[Vec<Card>; 4]>)
        ensures
            res matches Some(hands) ==> {
                &&& some_hand_can_bid(hands@)
                &&& exists|cards: Seq<Card>|
                    cards.to_multiset() == fresh_deck().to_multiset() && #[trigger] is_deal_of(
                        hands@,
                        cards,
                    )
            },
    {
        let mut attempts: u32 = 0;
        while attempts < MAX_DEAL_ATTEMPTS
            invariant
                attempts <= MAX_DEAL_ATTEMPTS,
            decreases MAX_DEAL_ATTEMPTS - attempts,
        {
            attempts += 1;
            let mut deck = Deck::new();
            deck.shuffle();
            let ghost shuffled = deck@;
            if let Some(hands) = deck.deal_if_valid() {
                assert(shuffled.to_multiset() == fresh_deck().to_multiset());
                assert(is_deal_of(hands@, shuffled));
                return Some(hands);
            }
        }
        None
    }

    /// The names of the suits under which a hand holds exactly `count`
    /// trumps, each with the seat.
    fn suits_of_length(seat: usize, counts: &[u8; 4], count: u8, Ghost(cards): Ghost<Seq<Card>>) -> (suits:
        Vec<(usize, String)>)
        requires
            forall|s: int| 0 <= s < 4 ==> counts@[s] == count_trumps(cards, #[trigger] Suit::spec_at(s)),
        ensures
            suits@.len() == suits_with(cards, count as nat, 4).len(),
            forall|i: int|
                0 <= i < suits@.len() ==> (#[trigger] suits@[i]).0 == seat && suits@[i].1@
                    == suits_with(cards, count as nat, 4)[i],
    {
        let mut suits: Vec<(usize, String)> = Vec::new();
        let mut k: usize = 0;
        while k < 4
            invariant
                k <= 4,
                forall|s: int|
                    0 <= s < 4 ==> counts@[s] == count_trumps(cards, #[trigger] Suit::spec_at(s)),
                suits@.len() == suits_with(cards, count as nat, k as int).len(),
                forall|i: int|
                    0 <= i < suits@.len() ==> (#[trigger] suits@[i]).0 == seat && suits@[i].1@
                        == suits_with(cards, count as nat, k as int)[i],
            decreases 4 - k,
        {
            assert(counts@[k as int] == count_trumps(cards, Suit::spec_at(k as int)));
            if counts[k] == count {
                suits.push((seat, String::from_str(Suit::at(k).name())));
            }
            k += 1;
        }
        suits
    }

    /// Looks at a deal with the bidding in mind: the trumps under each
    /// suit, how many hands can bid, the longest bid that any hand can
    /// make, and the first seat that can make it with the suits in which it
    /// can.
    pub fn analyze_hands(hands: &[Vec<Card>; 4]) -> (analysis: HandAnalysis)
        requires
            forall|p: int| 0 <= p < 4 ==> (#[trigger] hands@[p])@.len() <= 63,
        ensures
            forall|s: int|
                0 <= s < 4 ==> analysis.total_trumps_per_suit@[s] == trump_total(
                    hands@,
                    #[trigger] Suit::spec_at(s),
                    4,
                ),
            analysis.players_with_valid_bids == bidders_among(hands@, 4),
            analysis.best_bid_length == longest_bid(hands@, 4),
            longest_bidder(hands@, 4) < 0 ==> analysis.best_bid_suits@.len() == 0,
            longest_bidder(hands@, 4) >= 0 ==> {
                let seat = longest_bidder(hands@, 4);
                let names = suits_with(hands@[seat]@, longest_bid(hands@, 4), 4);
                &&& analysis.best_bid_suits@.len() == names.len()
                &&& forall|i: int|
                    0 <= i < names.len() ==> (#[trigger] analysis.best_bid_suits@[i]).0 == seat
                        && analysis.best_bid_suits@[i].1@ == names[i]
            },
    {
        let mut totals: [u8; 4] = [0u8; 4];
        let mut bidders: u8 = 0;
        let mut best: u8 = 0;
        let mut best_suits: Vec<(usize, String)> = Vec::new();
        let mut p: usize = 0;
        while p < 4
            invariant
                p <= 4,
                forall|q: int| 0 <= q < 4 ==> (#[trigger] hands@[q])@.len() <= 63,
                forall|s: int|
                    0 <= s < 4 ==> totals@[s] == trump_total(hands@, #[trigger] Suit::spec_at(s), p as int),
                forall|s: int| 0 <= s < 4 ==> #[trigger] totals@[s] <= 63 * p,
                bidders == bidders_among(hands@, p as int),
                bidders <= p,
                best == longest_bid(hands@, p as int),
                -1 <= longest_bidder(hands@, p as int) < p,
                longest_bidder(hands@, p as int) < 0 ==> best_suits@.len() == 0,
                longest_bidder(hands@, p as int) >= 0 ==> {
                    let seat = longest_bidder(hands@, p as int);
                    let names = suits_with(hands@[seat]@, best as nat, 4);
                    &&& best_suits@.len() == names.len()
                    &&& forall|i: int|
                        0 <= i < names.len() ==> (#[trigger] best_suits@[i]).0 == seat
                            && best_suits@[i].1@ == names[i]
                },
            decreases 4 - p,
        {
            let ghost cards = hands@[p as int]@;
            let counts = Deck::calculate_trump_counts(hands[p].as_slice());
            proof {
                assert(Suit::spec_at(0) == Suit::Hearts);
                assert(Suit::spec_at(1) == Suit::Diamonds);
                assert(Suit::spec_at(2) == Suit::Clubs);
                assert(Suit::spec_at(3) == Suit::Spades);
                lemma_count_trumps_bound(cards, Suit::Hearts);
                lemma_count_trumps_bound(cards, Suit::Diamonds);
                lemma_count_trumps_bound(cards, Suit::Clubs);
                lemma_count_trumps_bound(cards, Suit::Spades);
            }
            let ghost before = totals@;
            totals[0] = totals[0] + counts[0];
            totals[1] = totals[1] + counts[1];
            totals[2] = totals[2] + counts[2];
            totals[3] = totals[3] + counts[3];
            let hd = if counts[0] >= counts[1] {
                counts[0]
            } else {
                counts[1]
            };
            let cs = if counts[2] >= counts[3] {
                counts[2]
            } else {
                counts[3]
            };
            let most = if hd >= cs {
                hd
            } else {
                cs
            };
            assert(most == most_trumps(cards));
            if most >= 5 {
                bidders += 1;
                if most > best {
                    best = most;
                    best_suits = Deck::suits_of_length(p, &counts, most, Ghost(cards));
                }
            }
            p += 1;
        }
        HandAnalysis {
            total_trumps_per_suit: totals,
            players_with_valid_bids: bidders,
            best_bid_length: best,
            best_bid_suits: best_suits,
        }
    }

    /// How many cards the deck holds.
    pub fn remaining_cards(&self) -> (n: usize)
        ensures
            n == self@.len(),
    {
        self.cards.len()
    }

    /// Whether the deck holds 32 cards.
    pub fn is_complete(&self) -> (b: bool)
        ensures
            b == (self@.len() == 32),
    {
        self.cards.len() == 32
    }
}

impl Default for Deck {
    fn default() -> (deck: Deck)
        ensures
            deck@ == fresh_deck(),
    {
        Deck::new()
    }
}

} // verus!
