//! The card model: suits, ranks, the trump hierarchy and the rule that
//! decides which of two cards wins.

use crate::text::{matches_ignoring_case, starts_with, str_eq, str_eq_ignoring_case, str_starts_with};
use vstd::prelude::*;
use vstd::string::*;

verus! {

/// The four suits.
#[derive(Debug, Clone, Copy, PartialEq, Eq, Hash, Structural)]
pub enum Suit {
    Hearts,
    Diamonds,
    Clubs,
    Spades,
}

/// The eight ranks of the 32-card deck.
#[derive(Debug, Clone, Copy, PartialEq, Eq, Hash, Structural)]
pub enum Rank {
    Seven,
    Eight,
    Nine,
    Ten,
    Jack,
    Queen,
    King,
    Ace,
}

/// A playing card.
#[derive(Debug, Clone, Copy, PartialEq, Eq, Hash, Structural)]
pub struct Card {
    pub suit: Suit,
    pub rank: Rank,
}

/// The letter that stands for a suit in a card code.
pub open spec fn suit_letter(suit: Suit) -> Seq<char> {
    match suit {
        Suit::Hearts => seq!['H'],
        Suit::Diamonds => seq!['D'],
        Suit::Clubs => seq!['C'],
        Suit::Spades => seq!['S'],
    }
}

/// The wire name of a suit.
pub open spec fn suit_name(suit: Suit) -> Seq<char> {
    match suit {
        Suit::Hearts => "hearts"@,
        Suit::Diamonds => "diamonds"@,
        Suit::Clubs => "clubs"@,
        Suit::Spades => "spades"@,
    }
}

/// The suit that a text names: its wire name or its first letter, in any
/// mix of upper and lower case.
pub open spec fn suit_of_text(s: Seq<char>) -> Option<Suit> {
    if matches_ignoring_case(s, "hearts"@) || matches_ignoring_case(s, "h"@) {
        Some(Suit::Hearts)
    } else if matches_ignoring_case(s, "diamonds"@) || matches_ignoring_case(s, "d"@) {
        Some(Suit::Diamonds)
    } else if matches_ignoring_case(s, "clubs"@) || matches_ignoring_case(s, "c"@) {
        Some(Suit::Clubs)
    } else if matches_ignoring_case(s, "spades"@) || matches_ignoring_case(s, "s"@) {
        Some(Suit::Spades)
    } else {
        None
    }
}

/// The suit that a wire name denotes, spelled exactly.
pub open spec fn suit_of_name(s: Seq<char>) -> Option<Suit> {
    if s == "hearts"@ {
        Some(Suit::Hearts)
    } else if s == "diamonds"@ {
        Some(Suit::Diamonds)
    } else if s == "clubs"@ {
        Some(Suit::Clubs)
    } else if s == "spades"@ {
        Some(Suit::Spades)
    } else {
        None
    }
}

/// The mnemonic of a rank in a card code.
pub open spec fn rank_text(rank: Rank) -> Seq<char> {
    match rank {
        Rank::Seven => seq!['7'],
        Rank::Eight => seq!['8'],
        Rank::Nine => seq!['9'],
        Rank::Ten => seq!['1', '0'],
        Rank::Jack => seq!['J'],
        Rank::Queen => seq!['Q'],
        Rank::King => seq!['K'],
        Rank::Ace => seq!['A'],
    }
}

/// The rank whose mnemonic the text is.
pub open spec fn rank_of_text(s: Seq<char>) -> Option<Rank> {
    if s == seq!['7'] {
        Some(Rank::Seven)
    } else if s == seq!['8'] {
        Some(Rank::Eight)
    } else if s == seq!['9'] {
        Some(Rank::Nine)
    } else if s == seq!['1', '0'] {
        Some(Rank::Ten)
    } else if s == seq!['J'] {
        Some(Rank::Jack)
    } else if s == seq!['Q'] {
        Some(Rank::Queen)
    } else if s == seq!['K'] {
        Some(Rank::King)
    } else if s == seq!['A'] {
        Some(Rank::Ace)
    } else {
        None
    }
}

/// The code of a card: the rank mnemonic, then the suit letter.
pub open spec fn card_code(card: Card) -> Seq<char> {
    rank_text(card.rank) + suit_letter(card.suit)
}

/// The part of a card code that names the rank: `10` where the code starts
/// with it, else the first character.
pub open spec fn code_rank_part(code: Seq<char>) -> Seq<char> {
    if starts_with(code, seq!['1', '0']) {
        seq!['1', '0']
    } else {
        code.subrange(0, 1)
    }
}

/// The part of a card code that names the suit: all that follows the rank.
pub open spec fn code_suit_part(code: Seq<char>) -> Seq<char> {
    if starts_with(code, seq!['1', '0']) {
        code.subrange(2, code.len() as int)
    } else {
        code.subrange(1, code.len() as int)
    }
}

/// The card that a code denotes, if it denotes one.
pub open spec fn parse_card(code: Seq<char>) -> Option<Card> {
    if code.len() < 2 {
        None
    } else {
        match (rank_of_text(code_rank_part(code)), suit_of_text(code_suit_part(code))) {
            (Some(rank), Some(suit)) => Some(Card { suit, rank }),
            _ => None,
        }
    }
}

/// What is wrong with a code that denotes no card.
pub open spec fn card_code_complaint(code: Seq<char>) -> Seq<char> {
    if code.len() < 2 {
        "Card code too short"@
    } else if rank_of_text(code_rank_part(code)) is None {
        "Invalid rank"@
    } else {
        "Invalid suit"@
    }
}

impl Suit {
    /// Position of the suit in the order hearts, diamonds, clubs, spades.
    pub open spec fn spec_index(self) -> int {
        match self {
            Suit::Hearts => 0,
            Suit::Diamonds => 1,
            Suit::Clubs => 2,
            Suit::Spades => 3,
        }
    }

    /// Position of the suit in the order hearts, diamonds, clubs, spades.
    pub fn index(&self) -> (i: usize)
        ensures
            i == self.spec_index(),
    {
        match self {
            Suit::Hearts => 0,
            Suit::Diamonds => 1,
            Suit::Clubs => 2,
            Suit::Spades => 3,
        }
    }

    /// The suit at a position of the order hearts, diamonds, clubs, spades.
    pub open spec fn spec_at(i: int) -> Suit {
        if i == 0 {
            Suit::Hearts
        } else if i == 1 {
            Suit::Diamonds
        } else if i == 2 {
            Suit::Clubs
        } else {
            Suit::Spades
        }
    }

    /// The suit at a position of the order hearts, diamonds, clubs, spades.
    pub fn at(i: usize) -> (suit: Suit)
        requires
            i < 4,
        ensures
            suit == Suit::spec_at(i as int),
            suit.spec_index() == i,
    {
        if i == 0 {
            Suit::Hearts
        } else if i == 1 {
            Suit::Diamonds
        } else if i == 2 {
            Suit::Clubs
        } else {
            Suit::Spades
        }
    }

    /// The letter of the suit, as card codes write it.
    pub fn to_string(&self) -> (s: String)
        ensures
            s@ == suit_letter(*self),
    {
        proof {
            reveal_strlit("H");
            reveal_strlit("D");
            reveal_strlit("C");
            reveal_strlit("S");
        }
        let s = match self {
            Suit::Hearts => String::from_str("H"),
            Suit::Diamonds => String::from_str("D"),
            Suit::Clubs => String::from_str("C"),
            Suit::Spades => String::from_str("S"),
        };
        assert(s@ =~= suit_letter(*self));
        s
    }

    /// The wire name of the suit.
    pub fn name(&self) -> (s: &'static str)
        ensures
            s@ == suit_name(*self),
    {
        match self {
            Suit::Hearts => "hearts",
            Suit::Diamonds => "diamonds",
            Suit::Clubs => "clubs",
            Suit::Spades => "spades",
        }
    }

    /// Reads a suit from its wire name or its letter, ignoring case.
    pub fn parse(s: &str) -> (res: Option<Suit>)
        ensures
            res == suit_of_text(s@),
    {
        if str_eq_ignoring_case(s, "hearts") || str_eq_ignoring_case(s, "h") {
            Some(Suit::Hearts)
        } else if str_eq_ignoring_case(s, "diamonds") || str_eq_ignoring_case(s, "d") {
            Some(Suit::Diamonds)
        } else if str_eq_ignoring_case(s, "clubs") || str_eq_ignoring_case(s, "c") {
            Some(Suit::Clubs)
        } else if str_eq_ignoring_case(s, "spades") || str_eq_ignoring_case(s, "s") {
            Some(Suit::Spades)
        } else {
            None
        }
    }

    /// Reads a suit from a wire name spelled exactly.
    pub fn from_name(s: &str) -> (res: Option<Suit>)
        ensures
            res == suit_of_name(s@),
    {
        if str_eq(s, "hearts") {
            Some(Suit::Hearts)
        } else if str_eq(s, "diamonds") {
            Some(Suit::Diamonds)
        } else if str_eq(s, "clubs") {
            Some(Suit::Clubs)
        } else if str_eq(s, "spades") {
            Some(Suit::Spades)
        } else {
            None
        }
    }

    /// The suit that `s` names. The text has to name one.
    pub fn from(s: &str) -> (suit: Suit)
        requires
            suit_of_text(s@) is Some,
        ensures
            suit_of_text(s@) == Some(suit),
    {
        match Suit::parse(s) {
            Some(suit) => suit,
            None => Suit::Hearts,
        }
    }
}

impl Rank {
    /// The number by which ranks are ordered outside trumps: 7 for the
    /// seven up to 14 for the ace.
    pub open spec fn spec_value(self) -> int {
        match self {
            Rank::Seven => 7,
            Rank::Eight => 8,
            Rank::Nine => 9,
            Rank::Ten => 10,
            Rank::Jack => 11,
            Rank::Queen => 12,
            Rank::King => 13,
            Rank::Ace => 14,
        }
    }

    /// The number by which ranks are ordered outside trumps.
    pub fn value(&self) -> (v: u8)
        ensures
            v == self.spec_value(),
    {
        match self {
            Rank::Seven => 7,
            Rank::Eight => 8,
            Rank::Nine => 9,
            Rank::Ten => 10,
            Rank::Jack => 11,
            Rank::Queen => 12,
            Rank::King => 13,
            Rank::Ace => 14,
        }
    }

    /// The mnemonic of the rank, as card codes write it.
    pub fn to_string(&self) -> (s: String)
        ensures
            s@ == rank_text(*self),
    {
        proof {
            reveal_strlit("7");
            reveal_strlit("8");
            reveal_strlit("9");
            reveal_strlit("10");
            reveal_strlit("J");
            reveal_strlit("Q");
            reveal_strlit("K");
            reveal_strlit("A");
        }
        let s = match self {
            Rank::Seven => String::from_str("7"),
            Rank::Eight => String::from_str("8"),
            Rank::Nine => String::from_str("9"),
            Rank::Ten => String::from_str("10"),
            Rank::Jack => String::from_str("J"),
            Rank::Queen => String::from_str("Q"),
            Rank::King => String::from_str("K"),
            Rank::Ace => String::from_str("A"),
        };
        assert(s@ =~= rank_text(*self));
        s
    }

    /// Reads a rank from its mnemonic.
    pub fn parse(s: &str) -> (res: Option<Rank>)
        ensures
            res == rank_of_text(s@),
    {
        proof {
            reveal_strlit("7");
            reveal_strlit("8");
            reveal_strlit("9");
            reveal_strlit("10");
            reveal_strlit("J");
            reveal_strlit("Q");
            reveal_strlit("K");
            reveal_strlit("A");
            assert("7"@ =~= seq!['7']);
            assert("8"@ =~= seq!['8']);
            assert("9"@ =~= seq!['9']);
            assert("10"@ =~= seq!['1', '0']);
            assert("J"@ =~= seq!['J']);
            assert("Q"@ =~= seq!['Q']);
            assert("K"@ =~= seq!['K']);
            assert("A"@ =~= seq!['A']);
        }
        if str_eq(s, "7") {
            Some(Rank::Seven)
        } else if str_eq(s, "8") {
            Some(Rank::Eight)
        } else if str_eq(s, "9") {
            Some(Rank::Nine)
        } else if str_eq(s, "10") {
            Some(Rank::Ten)
        } else if str_eq(s, "J") {
            Some(Rank::Jack)
        } else if str_eq(s, "Q") {
            Some(Rank::Queen)
        } else if str_eq(s, "K") {
            Some(Rank::King)
        } else if str_eq(s, "A") {
            Some(Rank::Ace)
        } else {
            None
        }
    }

    /// The rank whose mnemonic `s` is. The text has to be one.
    pub fn from(s: &str) -> (rank: Rank)
        requires
            rank_of_text(s@) is Some,
        ensures
            rank_of_text(s@) == Some(rank),
    {
        match Rank::parse(s) {
            Some(rank) => rank,
            None => Rank::Seven,
        }
    }
}

impl Card {
    pub fn new(suit: Suit, rank: Rank) -> (card: Card)
        ensures
            card == (Card { suit, rank }),
    {
        Card { suit, rank }
    }

    /// The code of the card for storage and transmission, such as `AS`,
    /// `QC` or `10H`.
    pub fn code(&self) -> (s: String)
        ensures
            s@ == card_code(*self),
    {
        let mut s = self.rank.to_string();
        let letter = self.suit.to_string();
        s.append(letter.as_str());
        s
    }

    /// The code of the card.
    pub fn to_string(&self) -> (s: String)
        ensures
            s@ == card_code(*self),
    {
        self.code()
    }

    /// Reads a card from its code. The suit may also be written by its
    /// name, and in either case.
    pub fn from_code(code: &str) -> (res: Result<Card, String>)
        ensures
            match res {
                Ok(card) => parse_card(code@) == Some(card),
                Err(e) => parse_card(code@) is None && e@ == card_code_complaint(code@),
            },
    {
        let n = code.unicode_len();
        if n < 2 {
            return Err(String::from_str("Card code too short"));
        }
        proof {
            reveal_strlit("10");
            assert("10"@ =~= seq!['1', '0']);
        }
        let ten = str_starts_with(code, "10");
        let rank_part = if ten {
            "10"
        } else {
            code.substring_char(0, 1)
        };
        let suit_part = if ten {
            code.substring_char(2, n)
        } else {
            code.substring_char(1, n)
        };
        assert(rank_part@ == code_rank_part(code@));
        assert(suit_part@ == code_suit_part(code@));
        match Rank::parse(rank_part) {
            None => Err(String::from_str("Invalid rank")),
            Some(rank) => match Suit::parse(suit_part) {
                None => Err(String::from_str("Invalid suit")),
                Some(suit) => Ok(Card { suit, rank }),
            },
        }
    }

    /// Card points: ace 11, ten 10, king 4, queen 3, jack 2, others 0.
    pub open spec fn spec_point_value(self) -> int {
        match self.rank {
            Rank::Ace => 11,
            Rank::King => 4,
            Rank::Queen => 3,
            Rank::Jack => 2,
            Rank::Ten => 10,
            _ => 0,
        }
    }

    /// Card points: ace 11, ten 10, king 4, queen 3, jack 2, others 0.
    pub fn point_value(&self) -> (v: u8)
        ensures
            v == self.spec_point_value(),
    {
        match self.rank {
            Rank::Ace => 11,
            Rank::King => 4,
            Rank::Queen => 3,
            Rank::Jack => 2,
            Rank::Ten => 10,
            _ => 0,
        }
    }

    /// The six permanent trumps: the queens of clubs and spades and the four
    /// jacks.
    pub open spec fn spec_is_permanent_trump(self) -> bool {
        self.rank == Rank::Jack || (self.rank == Rank::Queen && (self.suit == Suit::Clubs
            || self.suit == Suit::Spades))
    }

    /// True for the six cards that are trump whatever the trump suit is.
    pub fn is_permanent_trump(&self) -> (b: bool)
        ensures
            b == self.spec_is_permanent_trump(),
    {
        match (self.suit, self.rank) {
            (Suit::Clubs, Rank::Queen) => true,
            (Suit::Spades, Rank::Queen) => true,
            (_, Rank::Jack) => true,
            _ => false,
        }
    }

    /// A card is trump when it is a permanent trump or of the trump suit.
    pub open spec fn spec_is_trump(self, trump_suit: Suit) -> bool {
        self.spec_is_permanent_trump() || self.suit == trump_suit
    }

    /// True when the card is trump under the given trump suit.
    pub fn is_trump(&self, trump_suit: Suit) -> (b: bool)
        ensures
            b == self.spec_is_trump(trump_suit),
    {
        self.is_permanent_trump() || self.suit == trump_suit
    }

    /// Strength of a permanent trump, 20 for the queen of clubs down to 15
    /// for the jack of diamonds.
    pub open spec fn permanent_trump_order(self) -> int
        recommends
            self.spec_is_permanent_trump(),
    {
        match (self.suit, self.rank) {
            (Suit::Clubs, Rank::Queen) => 20,
            (Suit::Spades, Rank::Queen) => 19,
            (Suit::Clubs, Rank::Jack) => 18,
            (Suit::Spades, Rank::Jack) => 17,
            (Suit::Hearts, Rank::Jack) => 16,
            _ => 15,
        }
    }

    /// Strength of a trump of the trump suit that is no permanent trump:
    /// ace 14, king 13, queen 12, ten 11, nine 10, eight 9, seven 8.
    pub open spec fn suit_trump_order(self) -> int {
        match self.rank {
            Rank::Ace => 14,
            Rank::King => 13,
            Rank::Queen => 12,
            Rank::Ten => 11,
            Rank::Nine => 10,
            Rank::Eight => 9,
            _ => 8,
        }
    }

    /// Strength of the card among trumps, `None` for a card that is no
    /// trump. Permanent trumps stand above the trumps of the suit.
    pub open spec fn spec_trump_order(self, trump_suit: Suit) -> Option<int> {
        if self.spec_is_permanent_trump() {
            Some(self.permanent_trump_order())
        } else if self.suit == trump_suit {
            Some(self.suit_trump_order())
        } else {
            None
        }
    }

    /// Strength of the card among trumps; a higher number is stronger.
    pub fn trump_order(&self, trump_suit: Suit) -> (order: Option<u8>)
        ensures
            match order {
                Some(n) => self.spec_trump_order(trump_suit) == Some(n as int),
                None => self.spec_trump_order(trump_suit) is None,
            },
    {
        if !self.is_trump(trump_suit) {
            return None;
        }
        match (self.suit, self.rank) {
            (Suit::Clubs, Rank::Queen) => Some(20),
            (Suit::Spades, Rank::Queen) => Some(19),
            (Suit::Clubs, Rank::Jack) => Some(18),
            (Suit::Spades, Rank::Jack) => Some(17),
            (Suit::Hearts, Rank::Jack) => Some(16),
            (Suit::Diamonds, Rank::Jack) => Some(15),
            _ => match self.rank {
                Rank::Ace => Some(14),
                Rank::King => Some(13),
                Rank::Queen => Some(12),
                Rank::Ten => Some(11),
                Rank::Nine => Some(10),
                Rank::Eight => Some(9),
                _ => Some(8),
            },
        }
    }

    /// Strength of the card outside trumps: ace highest, seven lowest.
    pub fn non_trump_order(&self) -> (order: u8)
        ensures
            order == self.rank.spec_value(),
    {
        self.rank.value()
    }

    /// Whether this card wins against `other` in a trick with the given
    /// trump and lead suits.
    ///
    /// Of two trumps the stronger wins; a trump wins against any other
    /// card; of two cards that are no trumps, one that follows the lead suit
    /// wins against one that does not, the higher wins where both follow,
    /// and neither wins where neither follows.
    pub open spec fn spec_beats(self, other: Card, trump_suit: Suit, lead_suit: Suit) -> bool {
        match (self.spec_trump_order(trump_suit), other.spec_trump_order(trump_suit)) {
            (Some(mine), Some(theirs)) => mine > theirs,
            (Some(_), None) => true,
            (None, Some(_)) => false,
            (None, None) => {
                if self.suit == lead_suit && other.suit == lead_suit {
                    self.rank.spec_value() > other.rank.spec_value()
                } else {
                    self.suit == lead_suit
                }
            },
        }
    }

    /// True when this card wins against `other`.
    pub fn beats(&self, other: &Card, trump_suit: Suit, lead_suit: Suit) -> (b: bool)
        ensures
            b == self.spec_beats(*other, trump_suit, lead_suit),
    {
        match (self.trump_order(trump_suit), other.trump_order(trump_suit)) {
            (Some(mine), Some(theirs)) => mine > theirs,
            (Some(_), None) => true,
            (None, Some(_)) => false,
            (None, None) => {
                if self.suit == lead_suit && other.suit != lead_suit {
                    true
                } else if self.suit != lead_suit && other.suit == lead_suit {
                    false
                } else if self.suit == lead_suit && other.suit == lead_suit {
                    self.non_trump_order() > other.non_trump_order()
                } else {
                    false
                }
            },
        }
    }

    /// A card can take a trick when it is trump or follows the lead suit.
    pub open spec fn in_contention(self, trump_suit: Suit, lead_suit: Suit) -> bool {
        self.spec_is_trump(trump_suit) || self.suit == lead_suit
    }

    /// The number by which cards are sorted for display: by the letter of
    /// the suit (clubs, diamonds, hearts, spades), then by rank.
    pub open spec fn sort_key(self) -> int {
        let suit_part: int = match self.suit {
            Suit::Clubs => 0,
            Suit::Diamonds => 1,
            Suit::Hearts => 2,
            Suit::Spades => 3,
        };
        suit_part * 16 + self.rank.spec_value()
    }

    /// The number by which cards are sorted for display.
    pub fn display_key(&self) -> (k: u8)
        ensures
            k == self.sort_key(),
    {
        let suit_part: u8 = match self.suit {
            Suit::Clubs => 0,
            Suit::Diamonds => 1,
            Suit::Hearts => 2,
            Suit::Spades => 3,
        };
        suit_part * 16 + self.rank.value()
    }
}

/// No card wins against itself.
pub proof fn lemma_beats_irreflexive(card: Card, trump_suit: Suit, lead_suit: Suit)
    ensures
        !card.spec_beats(card, trump_suit, lead_suit),
{
}

/// Two cards never win against each other.
pub proof fn lemma_beats_asymmetric(a: Card, b: Card, trump_suit: Suit, lead_suit: Suit)
    requires
        a.spec_beats(b, trump_suit, lead_suit),
    ensures
        !b.spec_beats(a, trump_suit, lead_suit),
{
}

/// Winning carries over: a card that wins against a second, which wins
/// against a third, wins against the third.
pub proof fn lemma_beats_transitive(a: Card, b: Card, c: Card, trump_suit: Suit, lead_suit: Suit)
    requires
        a.spec_beats(b, trump_suit, lead_suit),
        b.spec_beats(c, trump_suit, lead_suit),
    ensures
        a.spec_beats(c, trump_suit, lead_suit),
{
}

/// Of two different cards, one of which is trump or follows the lead suit,
/// exactly one wins against the other.
pub proof fn lemma_beats_total(a: Card, b: Card, trump_suit: Suit, lead_suit: Suit)
    requires
        a != b,
        a.in_contention(trump_suit, lead_suit) || b.in_contention(trump_suit, lead_suit),
    ensures
        a.spec_beats(b, trump_suit, lead_suit) != b.spec_beats(a, trump_suit, lead_suit),
{
}

/// Different cards are sorted to different places, so the display order of
/// a hand is decided by the cards it holds.
pub proof fn lemma_sort_key_injective(a: Card, b: Card)
    requires
        a.sort_key() == b.sort_key(),
    ensures
        a == b,
{
}

/// Reading the code of a card yields the card.
pub proof fn lemma_code_round_trip(card: Card)
    ensures
        parse_card(card_code(card)) == Some(card),
{
    let code = card_code(card);
    let r = rank_text(card.rank);
    let l = suit_letter(card.suit);
    reveal_strlit("hearts");
    reveal_strlit("diamonds");
    reveal_strlit("clubs");
    reveal_strlit("spades");
    reveal_strlit("h");
    reveal_strlit("d");
    reveal_strlit("c");
    reveal_strlit("s");
    assert(code.len() == r.len() + 1);
    if card.rank == Rank::Ten {
        assert(code.subrange(0, 2) =~= seq!['1', '0']);
        assert(code_rank_part(code) == seq!['1', '0']);
        assert(code.subrange(2, code.len() as int) =~= l);
    } else {
        assert(r.len() == 1);
        assert(code[0] != '1');
        assert(code.len() == 2);
        assert(code.subrange(0, 2)[0] == code[0]);
        assert(!starts_with(code, seq!['1', '0']));
        assert(code.subrange(0, 1) =~= r);
        assert(code.subrange(1, code.len() as int) =~= l);
    }
    assert(code_rank_part(code) == r);
    assert(code_suit_part(code) == l);
    assert(rank_of_text(r) == Some(card.rank)) by {
        assert(seq!['7'][0] == '7');
        assert(seq!['8'][0] == '8');
        assert(seq!['9'][0] == '9');
        assert(seq!['J'][0] == 'J');
        assert(seq!['Q'][0] == 'Q');
        assert(seq!['K'][0] == 'K');
        assert(seq!['A'][0] == 'A');
        assert(seq!['1', '0'].len() == 2);
    }
    assert(suit_of_text(l) == Some(card.suit)) by {
        assert(l.len() == 1);
        match card.suit {
            Suit::Hearts => {
                assert(matches_ignoring_case(l, "h"@));
            },
            Suit::Diamonds => {
                assert(matches_ignoring_case(l, "d"@));
                assert(!matches_ignoring_case(l, "h"@)) by {
                    assert(!crate::text::same_letter(l[0], "h"@[0]));
                }
            },
            Suit::Clubs => {
                assert(matches_ignoring_case(l, "c"@));
                assert(!matches_ignoring_case(l, "h"@)) by {
                    assert(!crate::text::same_letter(l[0], "h"@[0]));
                }
                assert(!matches_ignoring_case(l, "d"@)) by {
                    assert(!crate::text::same_letter(l[0], "d"@[0]));
                }
            },
            Suit::Spades => {
                assert(matches_ignoring_case(l, "s"@));
                assert(!matches_ignoring_case(l, "h"@)) by {
                    assert(!crate::text::same_letter(l[0], "h"@[0]));
                }
                assert(!matches_ignoring_case(l, "d"@)) by {
                    assert(!crate::text::same_letter(l[0], "d"@[0]));
                }
                assert(!matches_ignoring_case(l, "c"@)) by {
                    assert(!crate::text::same_letter(l[0], "c"@[0]));
                }
            },
        }
    }
}

/// The wire name of a suit reads back as the suit.
pub proof fn lemma_suit_name_round_trip(suit: Suit)
    ensures
        suit_of_name(suit_name(suit)) == Some(suit),
        suit_name(suit).len() > 0,
{
    reveal_strlit("hearts");
    reveal_strlit("diamonds");
    reveal_strlit("clubs");
    reveal_strlit("spades");
    assert("diamonds"@[0] != "hearts"@[0]);
    assert("clubs"@[0] != "hearts"@[0]);
    assert("clubs"@[0] != "diamonds"@[0]);
    assert("spades"@[0] != "hearts"@[0]);
    assert("spades"@[0] != "diamonds"@[0]);
    assert("spades"@[0] != "clubs"@[0]);
}

} // verus!
