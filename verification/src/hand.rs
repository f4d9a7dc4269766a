//! A player's hand: what it holds, what it may bid and what it may play.

use crate::card::{card_code, card_code_complaint, parse_card, suit_name, Card, Suit};
use crate::deck::{count_trumps, display_sorted, sort_for_display, Deck};
use crate::text::{decimal, format_u64};
use vstd::hash_map::StringHashMap;
use vstd::prelude::*;
use vstd::string::*;

verus! {

broadcast use vstd::seq_lib::group_to_multiset_ensures;

/// A player's hand.
#[derive(Debug, Clone)]
pub struct Hand {
    pub cards: Vec<Card>,
    pub player_position: usize,
}

/// A bid that a player may make.
#[derive(Debug, Clone)]
pub struct BidOption {
    pub length: u8,
    pub suit: String,
    pub display_text: String,
    pub is_club_declaration: bool,
}

/// A bid option as plain values.
pub struct BidOptionView {
    pub length: u8,
    pub suit: Seq<char>,
    pub display_text: Seq<char>,
    pub is_club_declaration: bool,
}

impl View for BidOption {
    type V = BidOptionView;

    open spec fn view(&self) -> BidOptionView {
        BidOptionView {
            length: self.length,
            suit: self.suit@,
            display_text: self.display_text@,
            is_club_declaration: self.is_club_declaration,
        }
    }
}

/// What there is to say of a hand at a glance.
pub struct HandSummary {
    pub card_count: u8,
    pub trump_counts: StringHashMap<u8>,
    pub point_value: u8,
    pub best_possible_bid: Option<BidOption>,
    pub has_permanent_trumps: bool,
    pub can_bid: bool,
}

/// The sum of the card points.
pub open spec fn total_points(cards: Seq<Card>) -> int
    decreases cards.len(),
{
    if cards.len() == 0 {
        0
    } else {
        total_points(cards.drop_last()) + cards.last().spec_point_value()
    }
}

/// The text that shows a bid: its length, then the suit in brackets.
pub open spec fn bid_text(length: u8, suit: Suit) -> Seq<char> {
    decimal(length as nat) + " trumps ("@ + suit_name(suit) + ")"@
}

/// The text that shows a bid which matches the highest bid by declaring
/// clubs.
pub open spec fn club_declaration_text(length: u8) -> Seq<char> {
    bid_text(length, Suit::Clubs) + " - Club Declaration!"@
}

/// A bid that outbids: a length above the highest bid so far, or at least 5
/// where nobody has bid, in any suit.
pub open spec fn raise_option(length: u8, suit: Suit) -> BidOptionView {
    BidOptionView {
        length,
        suit: suit_name(suit),
        display_text: bid_text(length, suit),
        is_club_declaration: suit == Suit::Clubs,
    }
}

/// A bid of clubs at the length of the highest bid so far.
pub open spec fn club_option(length: u8) -> BidOptionView {
    BidOptionView {
        length,
        suit: suit_name(Suit::Clubs),
        display_text: club_declaration_text(length),
        is_club_declaration: true,
    }
}

/// The least length that outbids.
pub open spec fn least_raise(current_highest: Option<u8>) -> int {
    match current_highest {
        Some(h) => h + 1,
        None => 5,
    }
}

/// What the hand may bid at one length in one suit, as a list of no or one
/// option: a raise where the length outbids and the hand holds that many
/// trumps of the suit; for clubs also a club declaration, where the length
/// is that of the highest bid and the hand holds exactly that many trumps
/// of clubs.
pub open spec fn options_at(
    cards: Seq<Card>,
    current_highest: Option<u8>,
    length: u8,
    suit: Suit,
) -> Seq<BidOptionView> {
    if least_raise(current_highest) <= length <= count_trumps(cards, suit) {
        seq![raise_option(length, suit)]
    } else if suit == Suit::Clubs && current_highest == Some(length) && count_trumps(cards, suit)
        == length {
        seq![club_option(length)]
    } else {
        Seq::empty()
    }
}

/// What the hand may bid at one length: clubs first, then hearts, diamonds
/// and spades.
pub open spec fn options_of_length(cards: Seq<Card>, current_highest: Option<u8>, length: u8) -> Seq<
    BidOptionView,
> {
    options_at(cards, current_highest, length, Suit::Clubs) + options_at(
        cards,
        current_highest,
        length,
        Suit::Hearts,
    ) + options_at(cards, current_highest, length, Suit::Diamonds) + options_at(
        cards,
        current_highest,
        length,
        Suit::Spades,
    )
}

/// What the hand may bid at lengths below `limit`, shortest first.
pub open spec fn options_below(cards: Seq<Card>, current_highest: Option<u8>, limit: nat) -> Seq<
    BidOptionView,
>
    decreases limit,
{
    if limit == 0 {
        Seq::empty()
    } else {
        options_below(cards, current_highest, (limit - 1) as nat) + options_of_length(
            cards,
            current_highest,
            (limit - 1) as u8,
        )
    }
}

/// All that the hand may bid, shortest first and clubs first among bids of
/// one length.
pub open spec fn available_bids(cards: Seq<Card>, current_highest: Option<u8>) -> Seq<
    BidOptionView,
> {
    options_below(cards, current_highest, (cards.len() + 1) as nat)
}

/// The largest count of trumps that the cards reach under any trump suit.
pub open spec fn most_trumps(cards: Seq<Card>) -> nat {
    let h = count_trumps(cards, Suit::Hearts);
    let d = count_trumps(cards, Suit::Diamonds);
    let c = count_trumps(cards, Suit::Clubs);
    let s = count_trumps(cards, Suit::Spades);
    let hd = if h >= d {
        h
    } else {
        d
    };
    let cs = if c >= s {
        c
    } else {
        s
    };
    if hd >= cs {
        hd
    } else {
        cs
    }
}

/// The suit under which the cards hold the most trumps: clubs where clubs
/// is among the best, else the first of hearts, diamonds and spades.
pub open spec fn best_suit(cards: Seq<Card>) -> Suit {
    let m = most_trumps(cards);
    if count_trumps(cards, Suit::Clubs) == m {
        Suit::Clubs
    } else if count_trumps(cards, Suit::Hearts) == m {
        Suit::Hearts
    } else if count_trumps(cards, Suit::Diamonds) == m {
        Suit::Diamonds
    } else {
        Suit::Spades
    }
}

/// The counts of trumps by the wire name of the trump suit.
pub open spec fn trump_count_map(cards: Seq<Card>) -> Map<Seq<char>, u8> {
    Map::<Seq<char>, u8>::empty().insert(
        "hearts"@,
        count_trumps(cards, Suit::Hearts) as u8,
    ).insert("diamonds"@, count_trumps(cards, Suit::Diamonds) as u8).insert(
        "clubs"@,
        count_trumps(cards, Suit::Clubs) as u8,
    ).insert("spades"@, count_trumps(cards, Suit::Spades) as u8)
}

/// A card follows the lead when it is of the lead suit and is no permanent
/// trump.
pub open spec fn follows_lead(card: Card, lead_suit: Suit) -> bool {
    card.suit == lead_suit && !card.spec_is_permanent_trump()
}

/// The cards that follow the lead, in the order in which the hand holds
/// them.
pub open spec fn followers(cards: Seq<Card>, lead_suit: Suit) -> Seq<Card>
    decreases cards.len(),
{
    if cards.len() == 0 {
        Seq::empty()
    } else if follows_lead(cards.last(), lead_suit) {
        followers(cards.drop_last(), lead_suit).push(cards.last())
    } else {
        followers(cards.drop_last(), lead_suit)
    }
}

/// The cards that may be played: any card to lead a trick; after a lead the
/// cards that follow it, and any card where none does.
pub open spec fn playable_cards(cards: Seq<Card>, lead_suit: Option<Suit>) -> Seq<Card> {
    match lead_suit {
        None => cards,
        Some(lead) => if followers(cards, lead).len() > 0 {
            followers(cards, lead)
        } else {
            cards
        },
    }
}

/// Whether one card may be played from the hand: the hand holds it, and it
/// follows the lead wherever the hand can follow.
pub open spec fn may_play(cards: Seq<Card>, lead_suit: Option<Suit>, card: Card) -> bool {
    playable_cards(cards, lead_suit).contains(card)
}

/// The first place at which the cards hold a card, or their number where
/// they do not hold it.
pub open spec fn first_index_of(cards: Seq<Card>, card: Card) -> int
    decreases cards.len(),
{
    if cards.len() == 0 {
        0
    } else if cards[0] == card {
        0
    } else {
        1 + first_index_of(cards.drop_first(), card)
    }
}

/// The cards that the codes denote, as long as every code denotes one.
pub open spec fn parse_cards(codes: Seq<String>) -> Option<Seq<Card>>
    decreases codes.len(),
{
    if codes.len() == 0 {
        Some(Seq::empty())
    } else {
        match (parse_cards(codes.drop_last()), parse_card(codes.last()@)) {
            (Some(cards), Some(card)) => Some(cards.push(card)),
            _ => None,
        }
    }
}

/// The complaint about the first code that denotes no card.
pub open spec fn first_complaint(codes: Seq<String>) -> Seq<char>
    decreases codes.len(),
{
    if codes.len() == 0 {
        Seq::empty()
    } else if parse_cards(codes.drop_last()) is None {
        first_complaint(codes.drop_last())
    } else {
        card_code_complaint(codes.last()@)
    }
}

/// The followers of a lead are among the cards, and each follows the lead.
pub proof fn lemma_followers_are_held(cards: Seq<Card>, lead_suit: Suit)
    ensures
        forall|c: Card|
            #![trigger followers(cards, lead_suit).contains(c)]
            #![trigger cards.contains(c)]
            followers(cards, lead_suit).contains(c) <==> cards.contains(c) && follows_lead(
                c,
                lead_suit,
            ),
    decreases cards.len(),
{
    let f = followers(cards, lead_suit);
    if cards.len() > 0 {
        let rest = cards.drop_last();
        let last = cards.last();
        let fr = followers(rest, lead_suit);
        lemma_followers_are_held(rest, lead_suit);
        assert forall|c: Card| f.contains(c) implies cards.contains(c) && follows_lead(
            c,
            lead_suit,
        ) by {
            let i = choose|i: int| 0 <= i < f.len() && f[i] == c;
            if follows_lead(last, lead_suit) && i == fr.len() {
                assert(cards[cards.len() - 1] == c);
            } else {
                assert(fr[i] == c);
                assert(fr.contains(c));
                assert(rest.contains(c));
                let j = choose|j: int| 0 <= j < rest.len() && rest[j] == c;
                assert(cards[j] == c);
            }
        }
        assert forall|c: Card| cards.contains(c) && follows_lead(c, lead_suit) implies f.contains(
            c,
        ) by {
            let j = choose|j: int| 0 <= j < cards.len() && cards[j] == c;
            if j == cards.len() - 1 {
                assert(f[fr.len() as int] == c);
            } else {
                assert(rest[j] == c);
                assert(rest.contains(c));
                assert(fr.contains(c));
                let i = choose|i: int| 0 <= i < fr.len() && fr[i] == c;
                assert(f[i] == c);
            }
        }
    } else {
        assert forall|c: Card| !f.contains(c) && !cards.contains(c) by {}
    }
}

/// A card may be played exactly when the hand holds it and either nothing
/// was led, or the card follows the lead, or no card of the hand does.
pub proof fn lemma_may_play(cards: Seq<Card>, lead_suit: Option<Suit>, card: Card)
    ensures
        may_play(cards, lead_suit, card) <==> cards.contains(card) && (lead_suit matches Some(lead)
            ==> follows_lead(card, lead) || forall|c: Card|
            cards.contains(c) ==> !follows_lead(c, lead)),
{
    if let Some(lead) = lead_suit {
        lemma_followers_are_held(cards, lead);
        let f = followers(cards, lead);
        if f.len() > 0 {
            assert(f.contains(f[0]));
            assert(cards.contains(f[0]) && follows_lead(f[0], lead));
            assert(f.contains(card) <==> cards.contains(card) && follows_lead(card, lead));
        } else {
            assert forall|c: Card| cards.contains(c) implies !follows_lead(c, lead) by {
                if follows_lead(c, lead) {
                    assert(f.contains(c));
                }
            }
        }
    }
}

/// The first place of a card lies within the cards exactly when they hold
/// it, and then the card is there and nowhere before.
pub proof fn lemma_first_index_of(cards: Seq<Card>, card: Card)
    ensures
        0 <= first_index_of(cards, card) <= cards.len(),
        first_index_of(cards, card) < cards.len() <==> cards.contains(card),
        first_index_of(cards, card) < cards.len() ==> cards[first_index_of(cards, card)] == card,
        forall|i: int| 0 <= i < first_index_of(cards, card) ==> cards[i] != card,
    decreases cards.len(),
{
    if cards.len() > 0 {
        if cards[0] == card {
            assert(cards.contains(card));
        } else {
            let rest = cards.drop_first();
            lemma_first_index_of(rest, card);
            let k = first_index_of(rest, card);
            if k < rest.len() {
                assert(cards[k + 1] == rest[k]);
                assert(cards.contains(card));
            }
            if cards.contains(card) {
                let j = choose|j: int| 0 <= j < cards.len() && cards[j] == card;
                assert(rest[j - 1] == card);
                assert(rest.contains(card));
            }
            assert forall|i: int| 0 <= i < k + 1 implies cards[i] != card by {
                if i > 0 {
                    assert(cards[i] == rest[i - 1]);
                }
            }
        }
    }
}

/// The text that shows a bid in a suit that is given by name.
pub open spec fn bid_text_for(length: u8, suit: Seq<char>) -> Seq<char> {
    decimal(length as nat) + " trumps ("@ + suit + ")"@
}

/// Builds the text of a bid in a suit that is given by name.
pub fn make_bid_text_for(length: u8, suit: &str) -> (s: String)
    ensures
        s@ == bid_text_for(length, suit@),
{
    let mut s = format_u64(length as u64);
    s.append(" trumps (");
    s.append(suit);
    s.append(")");
    s
}

/// Builds the text of a bid.
fn make_bid_text(length: u8, suit: Suit) -> (s: String)
    ensures
        s@ == bid_text(length, suit),
{
    let mut s = format_u64(length as u64);
    s.append(" trumps (");
    s.append(suit.name());
    s.append(")");
    s
}

/// Builds the option to outbid at a length in a suit.
fn make_raise_option(length: u8, suit: Suit) -> (option: BidOption)
    ensures
        option@ == raise_option(length, suit),
{
    BidOption {
        length,
        suit: String::from_str(suit.name()),
        display_text: make_bid_text(length, suit),
        is_club_declaration: matches!(suit, Suit::Clubs),
    }
}

/// Builds the option to declare clubs at the length of the highest bid.
fn make_club_option(length: u8) -> (option: BidOption)
    ensures
        option@ == club_option(length),
{
    let mut text = make_bid_text(length, Suit::Clubs);
    text.append(" - Club Declaration!");
    BidOption {
        length,
        suit: String::from_str(Suit::Clubs.name()),
        display_text: text,
        is_club_declaration: true,
    }
}

impl Hand {
    pub fn new(cards: Vec<Card>, player_position: usize) -> (hand: Hand)
        ensures
            hand.cards == cards,
            hand.player_position == player_position,
    {
        Hand { cards, player_position }
    }

    /// Adds to `bids` what the hand may bid at one length in one suit.
    fn push_options_at(
        bids: &mut Vec<BidOption>,
        counts: &[u8; 4],
        current_highest: Option<u8>,
        length: u8,
        suit: Suit,
        Ghost(cards): Ghost<Seq<Card>>,
        Ghost(before): Ghost<Seq<BidOptionView>>,
    )
        requires
            forall|s: int| 0 <= s < 4 ==> counts@[s] == count_trumps(cards, #[trigger] Suit::spec_at(s)),
            old(bids)@.len() == before.len(),
            forall|i: int| 0 <= i < before.len() ==> (#[trigger] old(bids)@[i])@ == before[i],
        ensures
            final(bids)@.len() == (before + options_at(cards, current_highest, length, suit)).len(),
            forall|i: int|
                0 <= i < final(bids)@.len() ==> (#[trigger] final(bids)@[i])@ == (before + options_at(
                    cards,
                    current_highest,
                    length,
                    suit,
                ))[i],
    {
        let count = counts[suit.index()];
        assert(count == count_trumps(cards, Suit::spec_at(suit.spec_index())));
        assert(Suit::spec_at(suit.spec_index()) == suit);
        let raises = match current_highest {
            Some(h) => h < length,
            None => 5 <= length,
        };
        if raises && length <= count {
            bids.push(make_raise_option(length, suit));
        } else {
            let declares = match (suit, current_highest) {
                (Suit::Clubs, Some(h)) => h == length && count == length,
                _ => false,
            };
            if declares {
                bids.push(make_club_option(length));
            }
        }
    }

    /// All that the hand may bid, given the length of the highest bid so
    /// far: every length that outbids, up to the number of trumps that the
    /// hand holds of a suit, and the club declaration at the highest bid's
    /// own length where the hand holds exactly that many trumps of clubs.
    /// Shortest first, clubs first among bids of one length.
    pub fn get_available_bids(&self, current_highest: Option<u8>) -> (bids: Vec<BidOption>)
        requires
            self.cards@.len() < u8::MAX,
        ensures
            bids@.len() == available_bids(self.cards@, current_highest).len(),
            forall|i: int|
                0 <= i < bids@.len() ==> (#[trigger] bids@[i])@ == available_bids(
                    self.cards@,
                    current_highest,
                )[i],
    {
        let counts = Deck::calculate_trump_counts(self.cards.as_slice());
        let mut bids: Vec<BidOption> = Vec::new();
        let limit: u8 = (self.cards.len() + 1) as u8;
        let mut length: u8 = 0;
        let ghost cards = self.cards@;
        while length < limit
            invariant
                length <= limit,
                limit == cards.len() + 1,
                cards == self.cards@,
                forall|s: int|
                    0 <= s < 4 ==> counts@[s] == count_trumps(cards, #[trigger] Suit::spec_at(s)),
                bids@.len() == options_below(cards, current_highest, length as nat).len(),
                forall|i: int|
                    0 <= i < bids@.len() ==> (#[trigger] bids@[i])@ == options_below(
                        cards,
                        current_highest,
                        length as nat,
                    )[i],
            decreases limit - length,
        {
            let ghost b0 = options_below(cards, current_highest, length as nat);
            let ghost b1 = b0 + options_at(cards, current_highest, length, Suit::Clubs);
            let ghost b2 = b1 + options_at(cards, current_highest, length, Suit::Hearts);
            let ghost b3 = b2 + options_at(cards, current_highest, length, Suit::Diamonds);
            let ghost b4 = b3 + options_at(cards, current_highest, length, Suit::Spades);
            Hand::push_options_at(
                &mut bids,
                &counts,
                current_highest,
                length,
                Suit::Clubs,
                Ghost(cards),
                Ghost(b0),
            );
            Hand::push_options_at(
                &mut bids,
                &counts,
                current_highest,
                length,
                Suit::Hearts,
                Ghost(cards),
                Ghost(b1),
            );
            Hand::push_options_at(
                &mut bids,
                &counts,
                current_highest,
                length,
                Suit::Diamonds,
                Ghost(cards),
                Ghost(b2),
            );
            Hand::push_options_at(
                &mut bids,
                &counts,
                current_highest,
                length,
                Suit::Spades,
                Ghost(cards),
                Ghost(b3),
            );
            proof {
                assert(b4 =~= b0 + options_of_length(cards, current_highest, length));
                assert(b4 == options_below(cards, current_highest, (length + 1) as nat));
            }
            length += 1;
        }
        bids
    }

    /// For each trump suit, by its wire name: how many cards of the hand
    /// would be trump.
    pub fn calculate_trump_counts(&self) -> (counts: StringHashMap<u8>)
        requires
            self.cards@.len() <= u8::MAX,
        ensures
            counts@ == trump_count_map(self.cards@),
    {
        let by_suit = Deck::calculate_trump_counts(self.cards.as_slice());
        let mut counts: StringHashMap<u8> = StringHashMap::new();
        assert(Suit::spec_at(0) == Suit::Hearts);
        assert(Suit::spec_at(1) == Suit::Diamonds);
        assert(Suit::spec_at(2) == Suit::Clubs);
        assert(Suit::spec_at(3) == Suit::Spades);
        counts.insert(String::from_str("hearts"), by_suit[0]);
        counts.insert(String::from_str("diamonds"), by_suit[1]);
        counts.insert(String::from_str("clubs"), by_suit[2]);
        counts.insert(String::from_str("spades"), by_suit[3]);
        counts
    }

    /// The longest bid that the hand can make, `None` where it holds fewer
    /// than five trumps under every trump suit. Among suits with equally
    /// many trumps clubs comes first, then hearts, diamonds and spades.
    pub fn get_best_bid(&self) -> (best: Option<BidOption>)
        requires
            self.cards@.len() <= u8::MAX,
        ensures
            best is Some <==> most_trumps(self.cards@) >= 5,
            best matches Some(option) ==> option@ == raise_option(
                most_trumps(self.cards@) as u8,
                best_suit(self.cards@),
            ),
    {
        let by_suit = Deck::calculate_trump_counts(self.cards.as_slice());
        assert(Suit::spec_at(0) == Suit::Hearts);
        assert(Suit::spec_at(1) == Suit::Diamonds);
        assert(Suit::spec_at(2) == Suit::Clubs);
        assert(Suit::spec_at(3) == Suit::Spades);
        let h = by_suit[0];
        let d = by_suit[1];
        let c = by_suit[2];
        let s = by_suit[3];
        let hd = if h >= d {
            h
        } else {
            d
        };
        let cs = if c >= s {
            c
        } else {
            s
        };
        let m = if hd >= cs {
            hd
        } else {
            cs
        };
        if m < 5 {
            return None;
        }
        let suit = if c == m {
            Suit::Clubs
        } else if h == m {
            Suit::Hearts
        } else if d == m {
            Suit::Diamonds
        } else {
            Suit::Spades
        };
        Some(make_raise_option(m, suit))
    }

    /// Whether the hand holds the card.
    pub fn has_card(&self, card: &Card) -> (held: bool)
        ensures
            held == self.cards@.contains(*card),
    {
        let mut i: usize = 0;
        while i < self.cards.len()
            invariant
                i <= self.cards@.len(),
                forall|k: int| 0 <= k < i ==> self.cards@[k] != *card,
            decreases self.cards@.len() - i,
        {
            if self.cards[i] == *card {
                return true;
            }
            i += 1;
        }
        false
    }

    /// Takes the card out of the hand, where the hand holds it: the first
    /// one, should it hold several. Says whether it did.
    pub fn remove_card(&mut self, card: &Card) -> (removed: bool)
        ensures
            removed == old(self).cards@.contains(*card),
            final(self).player_position == old(self).player_position,
            removed ==> final(self).cards@ == old(self).cards@.remove(
                first_index_of(old(self).cards@, *card),
            ),
            !removed ==> final(self).cards@ == old(self).cards@,
    {
        proof {
            lemma_first_index_of(self.cards@, *card);
        }
        let mut i: usize = 0;
        while i < self.cards.len()
            invariant
                i <= self.cards@.len(),
                forall|k: int| 0 <= k < i ==> self.cards@[k] != *card,
                *self == *old(self),
            decreases self.cards@.len() - i,
        {
            if self.cards[i] == *card {
                proof {
                    lemma_first_index_of(self.cards@, *card);
                    assert(self.cards@.contains(*card));
                }
                self.cards.remove(i);
                return true;
            }
            i += 1;
        }
        false
    }

    /// Adds a card and brings the hand into display order.
    pub fn add_card(&mut self, card: Card)
        ensures
            final(self).player_position == old(self).player_position,
            display_sorted(final(self).cards@),
            final(self).cards@.to_multiset() == old(self).cards@.to_multiset().insert(card),
    {
        self.cards.push(card);
        self.sort_cards();
    }

    /// Brings the hand into display order: by suit letter, then by rank.
    pub fn sort_cards(&mut self)
        ensures
            final(self).player_position == old(self).player_position,
            display_sorted(final(self).cards@),
            final(self).cards@.to_multiset() == old(self).cards@.to_multiset(),
            final(self).cards@.len() == old(self).cards@.len(),
    {
        let mut cards: Vec<Card> = Vec::new();
        core::mem::swap(&mut cards, &mut self.cards);
        self.cards = sort_for_display(cards);
    }

    /// The codes of the cards, in the order of the hand.
    pub fn to_codes(&self) -> (codes: Vec<String>)
        ensures
            codes@.len() == self.cards@.len(),
            forall|i: int| 0 <= i < codes@.len() ==> (#[trigger] codes@[i])@ == card_code(self.cards@[i]),
    {
        let mut codes: Vec<String> = Vec::new();
        let mut i: usize = 0;
        while i < self.cards.len()
            invariant
                i <= self.cards@.len(),
                codes@.len() == i,
                forall|k: int| 0 <= k < i ==> (#[trigger] codes@[k])@ == card_code(self.cards@[k]),
            decreases self.cards@.len() - i,
        {
            codes.push(self.cards[i].code());
            i += 1;
        }
        codes
    }

    /// Builds a hand from card codes, in display order. Fails on the first
    /// code that denotes no card.
    pub fn from_codes(codes: Vec<String>, player_position: usize) -> (res: Result<Hand, String>)
        ensures
            res is Ok <==> parse_cards(codes@) is Some,
            res matches Ok(hand) ==> {
                &&& hand.player_position == player_position
                &&& display_sorted(hand.cards@)
                &&& hand.cards@.to_multiset() == parse_cards(codes@)->0.to_multiset()
            },
            res matches Err(e) ==> e@ == first_complaint(codes@),
    {
        let mut cards: Vec<Card> = Vec::new();
        let mut i: usize = 0;
        assert(codes@.subrange(0, 0) =~= Seq::<String>::empty());
        while i < codes.len()
            invariant
                i <= codes@.len(),
                parse_cards(codes@.subrange(0, i as int)) == Some(cards@),
            decreases codes@.len() - i,
        {
            proof {
                assert(codes@.subrange(0, i + 1).drop_last() =~= codes@.subrange(0, i as int));
            }
            match Card::from_code(codes[i].as_str()) {
                Ok(card) => {
                    cards.push(card);
                },
                Err(e) => {
                    proof {
                        lemma_parse_cards_fails_later(codes@, i + 1);
                    }
                    return Err(e);
                },
            }
            i += 1;
        }
        assert(codes@.subrange(0, codes@.len() as int) =~= codes@);
        let mut hand = Hand::new(cards, player_position);
        hand.sort_cards();
        Ok(hand)
    }

    /// The sum of the card points of the hand.
    pub fn point_value(&self) -> (points: u8)
        requires
            total_points(self.cards@) <= u8::MAX,
        ensures
            points == total_points(self.cards@),
    {
        let mut points: u8 = 0;
        let mut i: usize = 0;
        assert(self.cards@.subrange(0, 0) =~= Seq::<Card>::empty());
        while i < self.cards.len()
            invariant
                i <= self.cards@.len(),
                points == total_points(self.cards@.subrange(0, i as int)),
                total_points(self.cards@) <= u8::MAX,
            decreases self.cards@.len() - i,
        {
            proof {
                assert(self.cards@.subrange(0, i + 1).drop_last() =~= self.cards@.subrange(0, i as int));
                lemma_total_points_prefix(self.cards@, i + 1);
            }
            points += self.cards[i].point_value();
            i += 1;
        }
        assert(self.cards@.subrange(0, self.cards@.len() as int) =~= self.cards@);
        points
    }

    /// Whether the hand holds eight cards, as a dealt hand does.
    pub fn is_valid(&self) -> (valid: bool)
        ensures
            valid == (self.cards@.len() == 8),
    {
        self.cards.len() == 8
    }

    /// The cards that may be played: any card to lead a trick; after a lead
    /// the cards of the lead suit that are no permanent trumps, and any
    /// card where the hand holds none of those.
    pub fn get_playable_cards(&self, trump_suit: Suit, lead_suit: Option<Suit>) -> (playable: Vec<
        Card,
    >)
        ensures
            playable@ == playable_cards(self.cards@, lead_suit),
    {
        match lead_suit {
            None => self.cards.clone(),
            Some(lead) => {
                let following = collect_followers(&self.cards, lead);
                if following.len() > 0 {
                    following
                } else {
                    self.cards.clone()
                }
            },
        }
    }

    /// The hand at a glance: how many cards, the trump counts, the card
    /// points, the best bid, whether it holds a permanent trump, and
    /// whether it can bid, which takes eight cards and five trumps.
    pub fn get_summary(&self) -> (summary: HandSummary)
        requires
            self.cards@.len() <= u8::MAX,
            total_points(self.cards@) <= u8::MAX,
        ensures
            summary.card_count == self.cards@.len(),
            summary.trump_counts@ == trump_count_map(self.cards@),
            summary.point_value == total_points(self.cards@),
            summary.best_possible_bid is Some <==> most_trumps(self.cards@) >= 5,
            summary.best_possible_bid matches Some(option) ==> option@ == raise_option(
                most_trumps(self.cards@) as u8,
                best_suit(self.cards@),
            ),
            summary.has_permanent_trumps == exists|i: int|
                0 <= i < self.cards@.len() && (#[trigger] self.cards@[i]).spec_is_permanent_trump(),
            summary.can_bid == (self.cards@.len() == 8 && most_trumps(self.cards@) >= 5),
    {
        let trump_counts = self.calculate_trump_counts();
        let point_value = self.point_value();
        let best_possible_bid = self.get_best_bid();
        let mut has_permanent_trumps = false;
        let mut i: usize = 0;
        while i < self.cards.len()
            invariant
                i <= self.cards@.len(),
                has_permanent_trumps == exists|k: int|
                    0 <= k < i && (#[trigger] self.cards@[k]).spec_is_permanent_trump(),
            decreases self.cards@.len() - i,
        {
            if self.cards[i].is_permanent_trump() {
                has_permanent_trumps = true;
            }
            i += 1;
        }
        let can_bid = self.cards.len() == 8 && best_possible_bid.is_some();
        HandSummary {
            card_count: self.cards.len() as u8,
            trump_counts,
            point_value,
            best_possible_bid,
            has_permanent_trumps,
            can_bid,
        }
    }
}

/// The cards of a hand that follow the lead.
pub fn collect_followers(cards: &Vec<Card>, lead_suit: Suit) -> (following: Vec<Card>)
    ensures
        following@ == followers(cards@, lead_suit),
{
    let mut following: Vec<Card> = Vec::new();
    let mut i: usize = 0;
    assert(cards@.subrange(0, 0) =~= Seq::<Card>::empty());
    while i < cards.len()
        invariant
            i <= cards@.len(),
            following@ == followers(cards@.subrange(0, i as int), lead_suit),
        decreases cards@.len() - i,
    {
        proof {
            assert(cards@.subrange(0, i + 1).drop_last() =~= cards@.subrange(0, i as int));
        }
        let card = cards[i];
        if card.suit == lead_suit && !card.is_permanent_trump() {
            following.push(card);
        }
        i += 1;
    }
    assert(cards@.subrange(0, cards@.len() as int) =~= cards@);
    following
}

/// Once a code denotes no card, no longer list of codes denotes cards.
pub proof fn lemma_parse_cards_fails_later(codes: Seq<String>, k: int)
    requires
        0 <= k <= codes.len(),
        parse_cards(codes.subrange(0, k)) is None,
    ensures
        parse_cards(codes) is None,
        first_complaint(codes) == first_complaint(codes.subrange(0, k)),
    decreases codes.len() - k,
{
    if k == codes.len() {
        assert(codes.subrange(0, k) =~= codes);
    } else {
        assert(codes.drop_last().subrange(0, k) =~= codes.subrange(0, k));
        lemma_parse_cards_fails_later(codes.drop_last(), k);
    }
}

/// The points of the first cards never exceed the points of all.
pub proof fn lemma_total_points_prefix(cards: Seq<Card>, k: int)
    requires
        0 <= k <= cards.len(),
    ensures
        0 <= total_points(cards.subrange(0, k)) <= total_points(cards),
    decreases cards.len() - k,
{
    if k == cards.len() {
        assert(cards.subrange(0, k) =~= cards);
        lemma_total_points_bounds(cards);
    } else {
        assert(cards.drop_last().subrange(0, k) =~= cards.subrange(0, k));
        lemma_total_points_prefix(cards.drop_last(), k);
    }
}

/// Each card counts between 0 and 11 points.
pub proof fn lemma_total_points_bounds(cards: Seq<Card>)
    ensures
        0 <= total_points(cards) <= 11 * cards.len(),
    decreases cards.len(),
{
    if cards.len() > 0 {
        lemma_total_points_bounds(cards.drop_last());
    }
}

} // verus!
