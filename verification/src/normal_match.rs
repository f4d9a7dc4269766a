//! The match record and its state machine: waiting, dealing, bidding,
//! playing, completed.
//!
//! A match lives in the shared store as a hash of text fields. This module
//! holds the record, the transitions between its phases, the rules of
//! bidding, and the two directions between the record and its hash.

use crate::card::Card;
use crate::partnership::{determine_partner, hand_views, partner_of};
use crate::relay::{opponent_seats, opponents_of};
use crate::text::{decimal, format_u64, parse_u64, parse_unsigned, str_eq};
use vstd::hash_map::StringHashMap;
use vstd::prelude::*;
use vstd::string::*;

verus! {

/// The phase of a match.
#[derive(Debug, Clone, Copy, PartialEq, Eq, Structural)]
pub enum NormalMatchStatus {
    /// Players are joining.
    Waiting,
    /// Cards are being dealt.
    Dealing,
    /// The trump suit is being bid for.
    Bidding,
    /// Tricks are being played.
    Playing,
    /// The game is over.
    Completed,
    /// The match was called off.
    Cancelled,
}

/// A match as the shared store holds it.
#[derive(Debug)]
pub struct NormalMatch {
    pub id: String,
    pub pin: u32,
    pub status: NormalMatchStatus,
    pub number_of_crosses: u32,
    pub current_cross: u32,
    pub created_timestamp: u64,
    /// Seat of the dealer, once the game has started.
    pub dealer_position: Option<usize>,
    /// Seat whose turn it is to bid.
    pub current_bidder: Option<usize>,
    /// Seat that leads the trick.
    pub current_leader: Option<usize>,
    /// Wire name of the trump suit, once bidding is over.
    pub trump_suit: Option<String>,
    /// Seat that declared trump.
    pub trump_declarer: Option<usize>,
    /// Length of the highest bid so far.
    pub highest_bid_length: Option<u8>,
    /// Seat that made the highest bid.
    pub highest_bidder: Option<usize>,
    /// Wire name of the suit of the highest bid.
    pub highest_bid_suit: Option<String>,
}

/// A match as plain values.
pub struct MatchView {
    pub id: Seq<char>,
    pub pin: u32,
    pub status: NormalMatchStatus,
    pub number_of_crosses: u32,
    pub current_cross: u32,
    pub created_timestamp: u64,
    pub dealer_position: Option<usize>,
    pub current_bidder: Option<usize>,
    pub current_leader: Option<usize>,
    pub trump_suit: Option<Seq<char>>,
    pub trump_declarer: Option<usize>,
    pub highest_bid_length: Option<u8>,
    pub highest_bidder: Option<usize>,
    pub highest_bid_suit: Option<Seq<char>>,
}

/// Where bidding stands.
#[derive(Debug)]
pub struct BiddingState {
    pub current_bidder: Option<usize>,
    pub highest_bid_length: Option<u8>,
    pub highest_bidder: Option<usize>,
    pub trump_suit: Option<String>,
    pub trump_declarer: Option<usize>,
}

/// The hash that the store holds for a match: text fields by their names.
pub type StoreHash = StringHashMap<String>;

/// The characters of a text that may be missing.
pub open spec fn opt_text(text: Option<String>) -> Option<Seq<char>> {
    match text {
        Some(s) => Some(s@),
        None => None,
    }
}

/// The seat to the left, which is next in every rotation.
pub open spec fn next_seat(seat: usize) -> usize {
    ((seat + 1) % 4) as usize
}

/// The seat across the table.
pub open spec fn opposite_seat(seat: usize) -> usize {
    ((seat + 2) % 4) as usize
}

/// The wire name of a phase.
pub open spec fn status_text(status: NormalMatchStatus) -> Seq<char> {
    match status {
        NormalMatchStatus::Waiting => "waiting"@,
        NormalMatchStatus::Dealing => "dealing"@,
        NormalMatchStatus::Bidding => "bidding"@,
        NormalMatchStatus::Playing => "playing"@,
        NormalMatchStatus::Completed => "completed"@,
        NormalMatchStatus::Cancelled => "cancelled"@,
    }
}

/// The phase that a wire name denotes; any other text reads as waiting.
pub open spec fn status_of_text(s: Seq<char>) -> NormalMatchStatus {
    if s == "dealing"@ {
        NormalMatchStatus::Dealing
    } else if s == "bidding"@ {
        NormalMatchStatus::Bidding
    } else if s == "playing"@ {
        NormalMatchStatus::Playing
    } else if s == "completed"@ {
        NormalMatchStatus::Completed
    } else if s == "cancelled"@ {
        NormalMatchStatus::Cancelled
    } else {
        NormalMatchStatus::Waiting
    }
}

/// The steps that the phase of a match can take: from waiting to dealing,
/// from dealing to bidding, from bidding back to dealing or on to
/// playing, from playing to completed, from completed to waiting for the
/// next game of the rubber, and from any phase in which the match is not
/// over to cancelled.
pub open spec fn legal_step(from: NormalMatchStatus, to: NormalMatchStatus) -> bool {
    match (from, to) {
        (NormalMatchStatus::Waiting, NormalMatchStatus::Dealing) => true,
        (NormalMatchStatus::Dealing, NormalMatchStatus::Bidding) => true,
        (NormalMatchStatus::Bidding, NormalMatchStatus::Dealing) => true,
        (NormalMatchStatus::Bidding, NormalMatchStatus::Playing) => true,
        (NormalMatchStatus::Playing, NormalMatchStatus::Completed) => true,
        (NormalMatchStatus::Completed, NormalMatchStatus::Waiting) => true,
        (NormalMatchStatus::Waiting, NormalMatchStatus::Cancelled) => true,
        (NormalMatchStatus::Dealing, NormalMatchStatus::Cancelled) => true,
        (NormalMatchStatus::Bidding, NormalMatchStatus::Cancelled) => true,
        (NormalMatchStatus::Playing, NormalMatchStatus::Cancelled) => true,
        _ => false,
    }
}

/// The four wire names of suits.
pub open spec fn is_suit_name(s: Seq<char>) -> bool {
    s == "hearts"@ || s == "diamonds"@ || s == "clubs"@ || s == "spades"@
}

/// The key under which the store holds a match.
pub open spec fn match_key(id: Seq<char>) -> Seq<char> {
    "match:"@ + id
}

impl View for NormalMatch {
    type V = MatchView;

    open spec fn view(&self) -> MatchView {
        MatchView {
            id: self.id@,
            pin: self.pin,
            status: self.status,
            number_of_crosses: self.number_of_crosses,
            current_cross: self.current_cross,
            created_timestamp: self.created_timestamp,
            dealer_position: self.dealer_position,
            current_bidder: self.current_bidder,
            current_leader: self.current_leader,
            trump_suit: opt_text(self.trump_suit),
            trump_declarer: self.trump_declarer,
            highest_bid_length: self.highest_bid_length,
            highest_bidder: self.highest_bidder,
            highest_bid_suit: opt_text(self.highest_bid_suit),
        }
    }
}

impl MatchView {
    /// A match as it is created: waiting, with nothing of a game set.
    pub open spec fn created(
        id: Seq<char>,
        pin: u32,
        number_of_crosses: u32,
        created_timestamp: u64,
    ) -> MatchView {
        MatchView {
            id,
            pin,
            status: NormalMatchStatus::Waiting,
            number_of_crosses,
            current_cross: 0,
            created_timestamp,
            dealer_position: None,
            current_bidder: None,
            current_leader: None,
            trump_suit: None,
            trump_declarer: None,
            highest_bid_length: None,
            highest_bidder: None,
            highest_bid_suit: None,
        }
    }

    /// Whether it is a seat's turn to bid.
    pub open spec fn turn_to_bid(self, seat: usize) -> bool {
        self.status == NormalMatchStatus::Bidding && self.current_bidder == Some(seat)
    }

    /// Whether it is a seat's turn to play.
    pub open spec fn turn_to_play(self, seat: usize) -> bool {
        self.status == NormalMatchStatus::Playing && self.current_leader == Some(seat)
    }

    /// From waiting to dealing: the dealer is set, the seat to the left
    /// will bid first, and whatever an earlier game left is cleared. In
    /// any other phase nothing changes.
    pub open spec fn after_start_dealing(self, dealer_position: usize) -> MatchView {
        if self.status == NormalMatchStatus::Waiting {
            MatchView {
                status: NormalMatchStatus::Dealing,
                dealer_position: Some(dealer_position),
                current_bidder: Some(next_seat(dealer_position)),
                current_leader: None,
                trump_suit: None,
                trump_declarer: None,
                highest_bid_length: None,
                highest_bidder: None,
                highest_bid_suit: None,
                ..self
            }
        } else {
            self
        }
    }

    /// From dealing to bidding; in any other phase nothing changes.
    pub open spec fn after_start_bidding(self) -> MatchView {
        if self.status == NormalMatchStatus::Dealing {
            MatchView { status: NormalMatchStatus::Bidding, ..self }
        } else {
            self
        }
    }

    /// From bidding to playing: trump and declarer are set, nobody bids
    /// any more, and the seat left of the dealer leads. In any other phase
    /// nothing changes.
    pub open spec fn after_complete_bidding(
        self,
        trump_suit: Seq<char>,
        trump_declarer: usize,
    ) -> MatchView {
        if self.status == NormalMatchStatus::Bidding {
            MatchView {
                status: NormalMatchStatus::Playing,
                trump_suit: Some(trump_suit),
                trump_declarer: Some(trump_declarer),
                current_bidder: None,
                current_leader: match self.dealer_position {
                    Some(dealer) => Some(next_seat(dealer)),
                    None => self.current_leader,
                },
                ..self
            }
        } else {
            self
        }
    }

    /// While bidding: a new highest bid, and the turn passes on.
    pub open spec fn after_update_bid(self, bidder: usize, bid_length: u8) -> MatchView {
        if self.status == NormalMatchStatus::Bidding {
            MatchView {
                highest_bid_length: Some(bid_length),
                highest_bidder: Some(bidder),
                current_bidder: Some(next_seat(bidder)),
                ..self
            }
        } else {
            self
        }
    }

    /// From bidding back to dealing: the same dealer, the seat to the left
    /// to bid first, and no bid, trump or leader. In any other phase
    /// nothing changes.
    pub open spec fn after_reset_for_redeal(self) -> MatchView {
        if self.status == NormalMatchStatus::Bidding {
            MatchView {
                status: NormalMatchStatus::Dealing,
                current_bidder: match self.dealer_position {
                    Some(dealer) => Some(next_seat(dealer)),
                    None => None,
                },
                highest_bid_length: None,
                highest_bidder: None,
                highest_bid_suit: None,
                trump_suit: None,
                trump_declarer: None,
                current_leader: None,
                ..self
            }
        } else {
            self
        }
    }

    /// Whether the match is over: completed or called off.
    pub open spec fn is_terminal(self) -> bool {
        self.status == NormalMatchStatus::Completed || self.status == NormalMatchStatus::Cancelled
    }

    /// The match called off: from any phase in which it is not over.
    pub open spec fn after_cancel(self) -> MatchView {
        if self.is_terminal() {
            self
        } else {
            MatchView { status: NormalMatchStatus::Cancelled, ..self }
        }
    }

    /// Whether a bid outbids the highest so far: any bid where there is
    /// none; a longer one; or clubs at the same length over another suit.
    pub open spec fn outbids(self, bid_length: u8, bid_suit: Seq<char>) -> bool {
        match self.highest_bid_length {
            None => true,
            Some(highest) => bid_length > highest || (bid_length == highest && bid_suit
                == "clubs"@ && self.highest_suit_text() != "clubs"@),
        }
    }

    /// The suit of the highest bid, empty where none is recorded.
    pub open spec fn highest_suit_text(self) -> Seq<char> {
        match self.highest_bid_suit {
            Some(suit) => suit,
            None => Seq::empty(),
        }
    }

    /// Why a bid is refused, if it is. In this order: it is not the
    /// seat's turn to bid; the length is not 5 to 8; the suit is none of
    /// the four; the bid does not outbid the highest so far.
    pub open spec fn bid_refusal(
        self,
        player_position: usize,
        bid_length: u8,
        bid_suit: Seq<char>,
    ) -> Option<Seq<char>> {
        if !self.turn_to_bid(player_position) {
            Some("Not your turn to bid"@)
        } else if bid_length < 5 || bid_length > 8 {
            Some("Bid must be between 5 and 8 trumps"@)
        } else if !is_suit_name(bid_suit) {
            Some("Invalid trump suit"@)
        } else if self.outbids(bid_length, bid_suit) {
            None
        } else if bid_length == self.highest_bid_length->0 {
            if bid_suit == "clubs"@ {
                Some("Cannot bid clubs to match clubs"@)
            } else {
                Some("Bid must be higher than current bid, or clubs to match"@)
            }
        } else {
            Some(
                "Bid must be at least "@ + decimal((self.highest_bid_length->0 + 1) as nat)
                    + " trumps"@,
            )
        }
    }

    /// The match after a bid was accepted: it is the highest, and the
    /// turn passes on.
    pub open spec fn after_bid(
        self,
        player_position: usize,
        bid_length: u8,
        bid_suit: Seq<char>,
    ) -> MatchView {
        MatchView {
            highest_bid_length: Some(bid_length),
            highest_bidder: Some(player_position),
            highest_bid_suit: Some(bid_suit),
            current_bidder: Some(next_seat(player_position)),
            ..self
        }
    }

    /// The match after a pass: the turn passes on.
    pub open spec fn after_pass(self, player_position: usize) -> MatchView {
        MatchView { current_bidder: Some(next_seat(player_position)), ..self }
    }

    /// All four seats have passed without a bid: after this pass the turn
    /// is back at the seat left of the dealer, and nobody has bid.
    pub open spec fn pass_ends_in_redeal(self, player_position: usize) -> bool {
        self.highest_bidder is None && match self.dealer_position {
            Some(dealer) => next_seat(player_position) == next_seat(dealer),
            None => false,
        }
    }

    /// The three other seats have passed after a bid: after this pass the
    /// turn is back at the seat with the highest bid.
    pub open spec fn pass_completes_bidding(self, player_position: usize) -> bool {
        match self.highest_bidder {
            Some(bidder) => next_seat(player_position) == bidder,
            None => false,
        }
    }

    /// Whether there is a bid to finish bidding with.
    pub open spec fn has_winning_bid(self) -> bool {
        self.highest_bid_length is Some && self.highest_bidder is Some && self.highest_bid_suit is Some
    }

    /// The match after bidding was finished with the highest bid.
    pub open spec fn after_finish_bidding(self) -> MatchView {
        if self.has_winning_bid() {
            self.after_complete_bidding(self.highest_bid_suit->0, self.highest_bidder->0)
        } else {
            self
        }
    }

    /// The record survives the store: the names of suits, where present,
    /// are not empty.
    pub open spec fn storable(self) -> bool {
        &&& self.trump_suit matches Some(suit) ==> suit.len() > 0
        &&& self.highest_bid_suit matches Some(suit) ==> suit.len() > 0
    }
}

/// The hash with a field set when a value is there.
pub open spec fn with_field(
    hash: Map<Seq<char>, Seq<char>>,
    key: Seq<char>,
    value: Option<Seq<char>>,
) -> Map<Seq<char>, Seq<char>> {
    match value {
        Some(text) => hash.insert(key, text),
        None => hash,
    }
}

/// A seat that may be missing, written in decimal.
pub open spec fn seat_text(seat: Option<usize>) -> Option<Seq<char>> {
    match seat {
        Some(n) => Some(decimal(n as nat)),
        None => None,
    }
}

/// The hash that the store holds for a match: every number in decimal, the
/// phase by its wire name, and the fields of a game only once they are
/// set.
pub open spec fn hash_of_match(m: MatchView) -> Map<Seq<char>, Seq<char>> {
    let base = Map::<Seq<char>, Seq<char>>::empty().insert("id"@, m.id).insert(
        "pin"@,
        decimal(m.pin as nat),
    ).insert("status"@, status_text(m.status)).insert(
        "number_of_crosses"@,
        decimal(m.number_of_crosses as nat),
    ).insert("current_cross"@, decimal(m.current_cross as nat)).insert(
        "created_timestamp"@,
        decimal(m.created_timestamp as nat),
    );
    let h1 = with_field(base, "dealer_position"@, seat_text(m.dealer_position));
    let h2 = with_field(h1, "current_bidder"@, seat_text(m.current_bidder));
    let h3 = with_field(h2, "current_leader"@, seat_text(m.current_leader));
    let h4 = with_field(h3, "trump_suit"@, m.trump_suit);
    let h5 = with_field(h4, "trump_declarer"@, seat_text(m.trump_declarer));
    let h6 = with_field(
        h5,
        "highest_bid_length"@,
        match m.highest_bid_length {
            Some(n) => Some(decimal(n as nat)),
            None => None,
        },
    );
    let h7 = with_field(h6, "highest_bidder"@, seat_text(m.highest_bidder));
    with_field(h7, "highest_bid_suit"@, m.highest_bid_suit)
}

/// A field of a hash, if the hash has it.
pub open spec fn field(hash: Map<Seq<char>, Seq<char>>, key: Seq<char>) -> Option<Seq<char>> {
    if hash.contains_key(key) {
        Some(hash[key])
    } else {
        None
    }
}

/// A field read as a number up to `max`; `None` where the field is missing
/// or is no such number.
pub open spec fn number_field(hash: Map<Seq<char>, Seq<char>>, key: Seq<char>, max: nat) -> Option<
    nat,
> {
    match field(hash, key) {
        Some(text) => parse_unsigned(text, max),
        None => None,
    }
}

/// A field read as a seat.
pub open spec fn seat_field(hash: Map<Seq<char>, Seq<char>>, key: Seq<char>) -> Option<usize> {
    match number_field(hash, key, usize::MAX as nat) {
        Some(n) => Some(n as usize),
        None => None,
    }
}

/// A field read as a name: `None` where it is missing or empty.
pub open spec fn name_field(hash: Map<Seq<char>, Seq<char>>, key: Seq<char>) -> Option<Seq<char>> {
    match field(hash, key) {
        Some(text) => if text.len() > 0 {
            Some(text)
        } else {
            None
        },
        None => None,
    }
}

/// What is wrong with a hash that holds no match: the first of pin,
/// number of crosses, current cross and creation time that is missing or
/// is no number; `None` where all four are there.
pub open spec fn hash_complaint(hash: Map<Seq<char>, Seq<char>>) -> Option<Seq<char>> {
    if field(hash, "pin"@) is None {
        Some("Missing pin field"@)
    } else if number_field(hash, "pin"@, u32::MAX as nat) is None {
        Some("Invalid pin format"@)
    } else if field(hash, "number_of_crosses"@) is None {
        Some("Missing number_of_crosses field"@)
    } else if number_field(hash, "number_of_crosses"@, u32::MAX as nat) is None {
        Some("Invalid number_of_crosses format"@)
    } else if field(hash, "current_cross"@) is None {
        Some("Missing current_cross field"@)
    } else if number_field(hash, "current_cross"@, u32::MAX as nat) is None {
        Some("Invalid current_cross format"@)
    } else if field(hash, "created_timestamp"@) is None {
        Some("Missing created_timestamp field"@)
    } else if number_field(hash, "created_timestamp"@, u64::MAX as nat) is None {
        Some("Invalid created_timestamp format"@)
    } else {
        None
    }
}

/// The match that a hash holds. The identifier comes from the key, not
/// from the hash. A missing phase reads as waiting; a field of a game that
/// is missing or unreadable reads as not set.
pub open spec fn match_of_hash(id: Seq<char>, hash: Map<Seq<char>, Seq<char>>) -> MatchView {
    MatchView {
        id,
        pin: number_field(hash, "pin"@, u32::MAX as nat)->0 as u32,
        status: match field(hash, "status"@) {
            Some(text) => status_of_text(text),
            None => NormalMatchStatus::Waiting,
        },
        number_of_crosses: number_field(hash, "number_of_crosses"@, u32::MAX as nat)->0 as u32,
        current_cross: number_field(hash, "current_cross"@, u32::MAX as nat)->0 as u32,
        created_timestamp: number_field(hash, "created_timestamp"@, u64::MAX as nat)->0 as u64,
        dealer_position: seat_field(hash, "dealer_position"@),
        current_bidder: seat_field(hash, "current_bidder"@),
        current_leader: seat_field(hash, "current_leader"@),
        trump_suit: name_field(hash, "trump_suit"@),
        trump_declarer: seat_field(hash, "trump_declarer"@),
        highest_bid_length: match number_field(hash, "highest_bid_length"@, u8::MAX as nat) {
            Some(n) => Some(n as u8),
            None => None,
        },
        highest_bidder: seat_field(hash, "highest_bidder"@),
        highest_bid_suit: name_field(hash, "highest_bid_suit"@),
    }
}

/// A hash of texts by the characters of each text.
pub open spec fn text_map(hash: Map<Seq<char>, String>) -> Map<Seq<char>, Seq<char>> {
    Map::new(|k: Seq<char>| hash.contains_key(k), |k: Seq<char>| hash[k]@)
}

/// Setting a field of a hash sets it in the hash of characters.
pub proof fn lemma_text_map_insert(hash: Map<Seq<char>, String>, key: Seq<char>, value: String)
    ensures
        text_map(hash.insert(key, value)) == text_map(hash).insert(key, value@),
{
    assert(text_map(hash.insert(key, value)) =~= text_map(hash).insert(key, value@));
}

/// Sets a field of a hash.
fn put(hash: &mut StringHashMap<String>, key: &str, value: String)
    ensures
        text_map(final(hash)@) == text_map(old(hash)@).insert(key@, value@),
{
    proof {
        lemma_text_map_insert(hash@, key@, value);
    }
    hash.insert(String::from_str(key), value);
}

/// Sets a field of a hash to a seat, where there is one.
fn put_seat(hash: &mut StringHashMap<String>, key: &str, seat: Option<usize>)
    ensures
        text_map(final(hash)@) == with_field(text_map(old(hash)@), key@, seat_text(seat)),
{
    match seat {
        Some(n) => put(hash, key, format_u64(n as u64)),
        None => {},
    }
}

/// Sets a field of a hash to a name, where there is one.
fn put_name(hash: &mut StringHashMap<String>, key: &str, name: &Option<String>)
    ensures
        text_map(final(hash)@) == with_field(text_map(old(hash)@), key@, opt_text(*name)),
{
    match name {
        Some(text) => put(hash, key, text.clone()),
        None => {},
    }
}

/// Reads a field of a hash.
fn get_field<'a>(hash: &'a StringHashMap<String>, key: &str) -> (value: Option<&'a String>)
    ensures
        opt_ref_text(value) == field(text_map(hash@), key@),
{
    hash.get(key)
}

/// The characters of a borrowed text that may be missing.
pub open spec fn opt_ref_text(text: Option<&String>) -> Option<Seq<char>> {
    match text {
        Some(s) => Some(s@),
        None => None,
    }
}

/// Reads a field of a hash as a seat.
fn get_seat(hash: &StringHashMap<String>, key: &str) -> (seat: Option<usize>)
    ensures
        seat == seat_field(text_map(hash@), key@),
{
    match get_field(hash, key) {
        Some(text) => match parse_u64(text.as_str(), usize::MAX as u64) {
            Some(n) => Some(n as usize),
            None => None,
        },
        None => None,
    }
}

/// Reads a field of a hash as a name.
fn get_name(hash: &StringHashMap<String>, key: &str) -> (name: Option<String>)
    ensures
        opt_text(name) == name_field(text_map(hash@), key@),
{
    match get_field(hash, key) {
        Some(text) => if text.as_str().unicode_len() > 0 {
            Some(text.clone())
        } else {
            None
        },
        None => None,
    }
}

impl NormalMatchStatus {
    /// The wire name of the phase.
    pub fn to_string(&self) -> (s: String)
        ensures
            s@ == status_text(*self),
    {
        match self {
            NormalMatchStatus::Waiting => String::from_str("waiting"),
            NormalMatchStatus::Dealing => String::from_str("dealing"),
            NormalMatchStatus::Bidding => String::from_str("bidding"),
            NormalMatchStatus::Playing => String::from_str("playing"),
            NormalMatchStatus::Completed => String::from_str("completed"),
            NormalMatchStatus::Cancelled => String::from_str("cancelled"),
        }
    }

    /// The phase that a wire name denotes; any other text reads as
    /// waiting.
    pub fn from(s: &str) -> (status: NormalMatchStatus)
        ensures
            status == status_of_text(s@),
    {
        if str_eq(s, "dealing") {
            NormalMatchStatus::Dealing
        } else if str_eq(s, "bidding") {
            NormalMatchStatus::Bidding
        } else if str_eq(s, "playing") {
            NormalMatchStatus::Playing
        } else if str_eq(s, "completed") {
            NormalMatchStatus::Completed
        } else if str_eq(s, "cancelled") {
            NormalMatchStatus::Cancelled
        } else {
            NormalMatchStatus::Waiting
        }
    }
}

/// The seat to the left of a seat.
pub fn seat_after(seat: usize) -> (next: usize)
    ensures
        next == next_seat(seat),
        next < 4,
{
    (seat % 4 + 1) % 4
}

/// The seat across the table from a seat.
pub fn seat_across(seat: usize) -> (across: usize)
    ensures
        across == opposite_seat(seat),
        across < 4,
{
    (seat % 4 + 2) % 4
}

impl Clone for NormalMatch {
    fn clone(&self) -> (copy: NormalMatch)
        ensures
            copy@ == self@,
    {
        NormalMatch {
            id: self.id.clone(),
            pin: self.pin,
            status: self.status,
            number_of_crosses: self.number_of_crosses,
            current_cross: self.current_cross,
            created_timestamp: self.created_timestamp,
            dealer_position: self.dealer_position,
            current_bidder: self.current_bidder,
            current_leader: self.current_leader,
            trump_suit: match &self.trump_suit {
                Some(s) => Some(s.clone()),
                None => None,
            },
            trump_declarer: self.trump_declarer,
            highest_bid_length: self.highest_bid_length,
            highest_bidder: self.highest_bidder,
            highest_bid_suit: match &self.highest_bid_suit {
                Some(s) => Some(s.clone()),
                None => None,
            },
        }
    }
}

impl NormalMatch {
    /// A new match, waiting for players, created now.
    pub fn new(id: String, pin: u32, number_of_crosses: u32) -> (m: NormalMatch)
        ensures
            m@ == MatchView::created(id@, pin, number_of_crosses, m@.created_timestamp),
    {
        let now = crate::timestamp::TimestampManager::now();
        let created_timestamp: u64 = if now < 0 {
            0
        } else {
            now as u64
        };
        NormalMatch::created_at(id, pin, number_of_crosses, created_timestamp)
    }

    /// A new match, waiting for players, created at the given time.
    pub fn created_at(id: String, pin: u32, number_of_crosses: u32, created_timestamp: u64) -> (m:
        NormalMatch)
        ensures
            m@ == MatchView::created(id@, pin, number_of_crosses, created_timestamp),
    {
        NormalMatch {
            id,
            pin,
            status: NormalMatchStatus::Waiting,
            number_of_crosses,
            current_cross: 0,
            created_timestamp,
            dealer_position: None,
            current_bidder: None,
            current_leader: None,
            trump_suit: None,
            trump_declarer: None,
            highest_bid_length: None,
            highest_bidder: None,
            highest_bid_suit: None,
        }
    }

    /// The key under which the store holds the match.
    pub fn redis_key(&self) -> (key: String)
        ensures
            key@ == match_key(self@.id),
    {
        let mut key = String::from_str("match:");
        key.append(self.id.as_str());
        key
    }

    /// Reads a match from the hash that the store holds for it. Pin,
    /// number of crosses, current cross and creation time have to be
    /// there as numbers; everything else has a fallback.
    pub fn from_redis_hash(id: String, hash: &StringHashMap<String>) -> (res: Result<
        NormalMatch,
        String,
    >)
        ensures
            res is Ok <==> hash_complaint(text_map(hash@)) is None,
            res matches Ok(m) ==> m@ == match_of_hash(id@, text_map(hash@)),
            res matches Err(e) ==> Some(e@) == hash_complaint(text_map(hash@)),
    {
        let pin = match get_field(hash, "pin") {
            None => {
                return Err(String::from_str("Missing pin field"));
            },
            Some(text) => match parse_u64(text.as_str(), u32::MAX as u64) {
                None => {
                    return Err(String::from_str("Invalid pin format"));
                },
                Some(n) => n as u32,
            },
        };
        let status = match get_field(hash, "status") {
            Some(text) => NormalMatchStatus::from(text.as_str()),
            None => NormalMatchStatus::Waiting,
        };
        let number_of_crosses = match get_field(hash, "number_of_crosses") {
            None => {
                return Err(String::from_str("Missing number_of_crosses field"));
            },
            Some(text) => match parse_u64(text.as_str(), u32::MAX as u64) {
                None => {
                    return Err(String::from_str("Invalid number_of_crosses format"));
                },
                Some(n) => n as u32,
            },
        };
        let current_cross = match get_field(hash, "current_cross") {
            None => {
                return Err(String::from_str("Missing current_cross field"));
            },
            Some(text) => match parse_u64(text.as_str(), u32::MAX as u64) {
                None => {
                    return Err(String::from_str("Invalid current_cross format"));
                },
                Some(n) => n as u32,
            },
        };
        let created_timestamp = match get_field(hash, "created_timestamp") {
            None => {
                return Err(String::from_str("Missing created_timestamp field"));
            },
            Some(text) => match parse_u64(text.as_str(), u64::MAX) {
                None => {
                    return Err(String::from_str("Invalid created_timestamp format"));
                },
                Some(n) => n,
            },
        };
        let dealer_position = get_seat(hash, "dealer_position");
        let current_bidder = get_seat(hash, "current_bidder");
        let current_leader = get_seat(hash, "current_leader");
        let trump_suit = get_name(hash, "trump_suit");
        let trump_declarer = get_seat(hash, "trump_declarer");
        let highest_bid_length = match get_field(hash, "highest_bid_length") {
            Some(text) => match parse_u64(text.as_str(), u8::MAX as u64) {
                Some(n) => Some(n as u8),
                None => None,
            },
            None => None,
        };
        let highest_bidder = get_seat(hash, "highest_bidder");
        let highest_bid_suit = get_name(hash, "highest_bid_suit");
        Ok(
            NormalMatch {
                id,
                pin,
                status,
                number_of_crosses,
                current_cross,
                created_timestamp,
                dealer_position,
                current_bidder,
                current_leader,
                trump_suit,
                trump_declarer,
                highest_bid_length,
                highest_bidder,
                highest_bid_suit,
            },
        )
    }

    /// Writes the match as the hash that the store holds for it.
    pub fn to_redis_hash(&self) -> (hash: StringHashMap<String>)
        ensures
            text_map(hash@) == hash_of_match(self@),
    {
        let mut hash: StringHashMap<String> = StringHashMap::new();
        assert(text_map(hash@) =~= Map::<Seq<char>, Seq<char>>::empty());
        put(&mut hash, "id", self.id.clone());
        put(&mut hash, "pin", format_u64(self.pin as u64));
        put(&mut hash, "status", self.status.to_string());
        put(&mut hash, "number_of_crosses", format_u64(self.number_of_crosses as u64));
        put(&mut hash, "current_cross", format_u64(self.current_cross as u64));
        put(&mut hash, "created_timestamp", format_u64(self.created_timestamp));
        put_seat(&mut hash, "dealer_position", self.dealer_position);
        put_seat(&mut hash, "current_bidder", self.current_bidder);
        put_seat(&mut hash, "current_leader", self.current_leader);
        put_name(&mut hash, "trump_suit", &self.trump_suit);
        put_seat(&mut hash, "trump_declarer", self.trump_declarer);
        match self.highest_bid_length {
            Some(n) => put(&mut hash, "highest_bid_length", format_u64(n as u64)),
            None => {},
        }
        put_seat(&mut hash, "highest_bidder", self.highest_bidder);
        put_name(&mut hash, "highest_bid_suit", &self.highest_bid_suit);
        hash
    }

    /// The names of the fields that the hash of a match can hold.
    pub fn hash_fields() -> (fields: Vec<&'static str>)
        ensures
            fields@.len() == 14,
            forall|m: MatchView, key: Seq<char>|
                #![trigger hash_of_match(m).contains_key(key)]
                hash_of_match(m).contains_key(key) ==> exists|i: int|
                    0 <= i < fields@.len() && (#[trigger] fields@[i])@ == key,
    {
        let mut fields: Vec<&'static str> = Vec::new();
        fields.push("id");
        fields.push("pin");
        fields.push("status");
        fields.push("number_of_crosses");
        fields.push("current_cross");
        fields.push("created_timestamp");
        fields.push("dealer_position");
        fields.push("current_bidder");
        fields.push("current_leader");
        fields.push("trump_suit");
        fields.push("trump_declarer");
        fields.push("highest_bid_length");
        fields.push("highest_bidder");
        fields.push("highest_bid_suit");
        assert forall|m: MatchView, key: Seq<char>|
            #![trigger hash_of_match(m).contains_key(key)]
            hash_of_match(m).contains_key(key) implies exists|i: int|
            0 <= i < fields@.len() && (#[trigger] fields@[i])@ == key by {
            if key == "id"@ {
                assert(fields@[0]@ == key);
            } else if key == "pin"@ {
                assert(fields@[1]@ == key);
            } else if key == "status"@ {
                assert(fields@[2]@ == key);
            } else if key == "number_of_crosses"@ {
                assert(fields@[3]@ == key);
            } else if key == "current_cross"@ {
                assert(fields@[4]@ == key);
            } else if key == "created_timestamp"@ {
                assert(fields@[5]@ == key);
            } else if key == "dealer_position"@ {
                assert(fields@[6]@ == key);
            } else if key == "current_bidder"@ {
                assert(fields@[7]@ == key);
            } else if key == "current_leader"@ {
                assert(fields@[8]@ == key);
            } else if key == "trump_suit"@ {
                assert(fields@[9]@ == key);
            } else if key == "trump_declarer"@ {
                assert(fields@[10]@ == key);
            } else if key == "highest_bid_length"@ {
                assert(fields@[11]@ == key);
            } else if key == "highest_bidder"@ {
                assert(fields@[12]@ == key);
            } else {
                assert(key == "highest_bid_suit"@);
                assert(fields@[13]@ == key);
            }
        }
        fields
    }

    /// Whether the game can start, which takes a match that is waiting.
    pub fn can_start(&self) -> (b: bool)
        ensures
            b == (self@.status == NormalMatchStatus::Waiting),
    {
        self.status == NormalMatchStatus::Waiting
    }

    /// Starts dealing, from waiting: sets the dealer and the first
    /// bidder, and clears what an earlier game left.
    pub fn start_dealing(&mut self, dealer_position: usize)
        ensures
            final(self)@ == old(self)@.after_start_dealing(dealer_position),
    {
        if self.can_start() {
            self.status = NormalMatchStatus::Dealing;
            self.dealer_position = Some(dealer_position);
            self.current_bidder = Some(seat_after(dealer_position));
            self.current_leader = None;
            self.trump_suit = None;
            self.trump_declarer = None;
            self.highest_bid_length = None;
            self.highest_bidder = None;
            self.highest_bid_suit = None;
        }
    }

    /// Starts bidding, from dealing.
    pub fn start_bidding(&mut self)
        ensures
            final(self)@ == old(self)@.after_start_bidding(),
    {
        if self.status == NormalMatchStatus::Dealing {
            self.status = NormalMatchStatus::Bidding;
        }
    }

    /// Ends bidding and starts play: sets trump and declarer, and lets
    /// the seat left of the dealer lead.
    pub fn complete_bidding(&mut self, trump_suit: String, trump_declarer: usize)
        ensures
            final(self)@ == old(self)@.after_complete_bidding(trump_suit@, trump_declarer),
    {
        if self.status == NormalMatchStatus::Bidding {
            self.status = NormalMatchStatus::Playing;
            self.trump_suit = Some(trump_suit);
            self.trump_declarer = Some(trump_declarer);
            self.current_bidder = None;
            match self.dealer_position {
                Some(dealer) => {
                    self.current_leader = Some(seat_after(dealer));
                },
                None => {},
            }
        }
    }

    /// Records a new highest bid while bidding, and passes the turn on.
    pub fn update_bid(&mut self, bidder: usize, bid_length: u8)
        ensures
            final(self)@ == old(self)@.after_update_bid(bidder, bid_length),
    {
        if self.status == NormalMatchStatus::Bidding {
            self.highest_bid_length = Some(bid_length);
            self.highest_bidder = Some(bidder);
            self.current_bidder = Some(seat_after(bidder));
        }
    }

    /// Goes back from bidding to dealing after everybody passed: same
    /// dealer, same first bidder, no bid, no trump.
    pub fn reset_for_redeal(&mut self)
        ensures
            final(self)@ == old(self)@.after_reset_for_redeal(),
    {
        if self.status == NormalMatchStatus::Bidding {
            self.status = NormalMatchStatus::Dealing;
            self.current_bidder = match self.dealer_position {
                Some(dealer) => Some(seat_after(dealer)),
                None => None,
            };
            self.highest_bid_length = None;
            self.highest_bidder = None;
            self.highest_bid_suit = None;
            self.trump_suit = None;
            self.trump_declarer = None;
            self.current_leader = None;
        }
    }

    /// Calls the match off, as happens when its host leaves. A match that
    /// is over stays as it is.
    pub fn cancel(&mut self)
        ensures
            final(self)@ == old(self)@.after_cancel(),
    {
        match self.status {
            NormalMatchStatus::Completed | NormalMatchStatus::Cancelled => {},
            _ => {
                self.status = NormalMatchStatus::Cancelled;
            },
        }
    }

    /// Whether it is a seat's turn to bid.
    pub fn is_player_turn_to_bid(&self, player_position: usize) -> (b: bool)
        ensures
            b == self@.turn_to_bid(player_position),
    {
        self.status == NormalMatchStatus::Bidding && match self.current_bidder {
            Some(seat) => seat == player_position,
            None => false,
        }
    }

    /// The seat whose turn follows.
    pub fn next_player(&self, current_player: usize) -> (next: usize)
        ensures
            next == next_seat(current_player),
    {
        seat_after(current_player)
    }

    /// Checks that the first trick can start: the match is in play and
    /// has a leader.
    pub fn start_first_trick(&mut self) -> (res: Result<(), String>)
        ensures
            final(self)@ == old(self)@,
            res is Ok <==> old(self)@.status == NormalMatchStatus::Playing && old(
                self,
            )@.current_leader is Some,
            res matches Err(e) ==> e@ == (if old(self)@.status != NormalMatchStatus::Playing {
                "Game must be in Playing state to start tricks"@
            } else {
                "Current leader must be set to start tricks"@
            }),
    {
        if self.status != NormalMatchStatus::Playing {
            return Err(String::from_str("Game must be in Playing state to start tricks"));
        }
        if self.current_leader.is_none() {
            return Err(String::from_str("Current leader must be set to start tricks"));
        }
        Ok(())
    }

    /// Whether it is a seat's turn to play.
    pub fn is_player_turn_to_play(&self, player_position: usize) -> (b: bool)
        ensures
            b == self@.turn_to_play(player_position),
    {
        self.status == NormalMatchStatus::Playing && match self.current_leader {
            Some(seat) => seat == player_position,
            None => false,
        }
    }

    /// Sets the leader of the next trick while the match is in play.
    pub fn update_current_leader(&mut self, new_leader: usize)
        ensures
            final(self)@ == (if old(self)@.status == NormalMatchStatus::Playing {
                MatchView { current_leader: Some(new_leader), ..old(self)@ }
            } else {
                old(self)@
            }),
    {
        if self.status == NormalMatchStatus::Playing {
            self.current_leader = Some(new_leader);
        }
    }

    /// Whether a game is going on: dealing, bidding or playing.
    pub fn is_active(&self) -> (b: bool)
        ensures
            b == (self@.status == NormalMatchStatus::Dealing || self@.status
                == NormalMatchStatus::Bidding || self@.status == NormalMatchStatus::Playing),
    {
        match self.status {
            NormalMatchStatus::Dealing | NormalMatchStatus::Bidding | NormalMatchStatus::Playing => true,
            _ => false,
        }
    }

    /// Checks a bid against the rules of bidding: the seat must be on
    /// turn, the length 5 to 8, the suit one of the four, and the bid must
    /// outbid the highest so far, by length or by clubs at the same length
    /// over another suit.
    pub fn is_valid_bid(&self, player_position: usize, bid_length: u8, bid_suit: &str) -> (res:
        Result<(), String>)
        ensures
            res is Ok <==> self@.bid_refusal(player_position, bid_length, bid_suit@) is None,
            res matches Err(e) ==> Some(e@) == self@.bid_refusal(
                player_position,
                bid_length,
                bid_suit@,
            ),
    {
        if !self.is_player_turn_to_bid(player_position) {
            return Err(String::from_str("Not your turn to bid"));
        }
        if bid_length < 5 || bid_length > 8 {
            return Err(String::from_str("Bid must be between 5 and 8 trumps"));
        }
        let clubs = str_eq(bid_suit, "clubs");
        if !(str_eq(bid_suit, "hearts") || str_eq(bid_suit, "diamonds") || clubs || str_eq(
            bid_suit,
            "spades",
        )) {
            return Err(String::from_str("Invalid trump suit"));
        }
        let current_highest = match self.highest_bid_length {
            None => {
                return Ok(());
            },
            Some(n) => n,
        };
        if bid_length > current_highest {
            return Ok(());
        }
        if bid_length < current_highest {
            let mut e = String::from_str("Bid must be at least ");
            let n = format_u64(current_highest as u64 + 1);
            e.append(n.as_str());
            e.append(" trumps");
            return Err(e);
        }
        let current_is_clubs = match &self.highest_bid_suit {
            Some(suit) => str_eq(suit.as_str(), "clubs"),
            None => false,
        };
        proof {
            reveal_strlit("clubs");
            assert("clubs"@.len() == 5);
            assert(Seq::<char>::empty().len() == 0);
        }
        if clubs && !current_is_clubs {
            Ok(())
        } else if clubs {
            Err(String::from_str("Cannot bid clubs to match clubs"))
        } else {
            Err(String::from_str("Bid must be higher than current bid, or clubs to match"))
        }
    }

    /// Makes a bid for the seat on turn: where the rules allow it, the
    /// bid becomes the highest and the turn passes on. A bid never ends
    /// bidding by itself, so an accepted bid answers `false`.
    pub fn make_bid(&mut self, player_position: usize, bid_length: u8, bid_suit: String) -> (res:
        Result<bool, String>)
        ensures
            res is Ok <==> old(self)@.bid_refusal(player_position, bid_length, bid_suit@) is None,
            res matches Ok(done) ==> !done && final(self)@ == old(self)@.after_bid(
                player_position,
                bid_length,
                bid_suit@,
            ),
            res matches Err(e) ==> final(self)@ == old(self)@ && Some(e@) == old(self)@.bid_refusal(
                player_position,
                bid_length,
                bid_suit@,
            ),
    {
        match self.is_valid_bid(player_position, bid_length, bid_suit.as_str()) {
            Err(e) => {
                return Err(e);
            },
            Ok(()) => {},
        }
        self.highest_bid_length = Some(bid_length);
        self.highest_bidder = Some(player_position);
        self.highest_bid_suit = Some(bid_suit);
        self.current_bidder = Some(seat_after(player_position));
        Ok(false)
    }

    /// Passes for the seat on turn and passes the turn on. The answer
    /// tells whether all four seats passed without a bid, which calls for
    /// a redeal, and whether the three other seats passed after a bid,
    /// which ends bidding.
    pub fn make_pass(&mut self, player_position: usize) -> (res: Result<(bool, bool), String>)
        ensures
            res is Ok <==> old(self)@.turn_to_bid(player_position),
            res matches Ok(answer) ==> {
                &&& final(self)@ == old(self)@.after_pass(player_position)
                &&& answer.0 == old(self)@.pass_ends_in_redeal(player_position)
                &&& answer.1 == old(self)@.pass_completes_bidding(player_position)
            },
            res matches Err(e) ==> final(self)@ == old(self)@ && e@ == "Not your turn to bid"@,
    {
        if !self.is_player_turn_to_bid(player_position) {
            return Err(String::from_str("Not your turn to bid"));
        }
        let next = seat_after(player_position);
        self.current_bidder = Some(next);
        match self.highest_bidder {
            None => {
                match self.dealer_position {
                    Some(dealer) => {
                        if next == seat_after(dealer) {
                            return Ok((true, false));
                        }
                    },
                    None => {},
                }
            },
            Some(bidder) => {
                if next == bidder {
                    return Ok((false, true));
                }
            },
        }
        Ok((false, false))
    }

    /// Ends bidding with the highest bid: its suit becomes trump and its
    /// bidder the declarer. Answers the length, the suit and the bidder.
    /// Refused where no bid is recorded.
    pub fn finish_bidding(&mut self) -> (res: Result<(u8, String, usize), String>)
        ensures
            res is Ok <==> old(self)@.has_winning_bid(),
            final(self)@ == old(self)@.after_finish_bidding(),
            res matches Ok(bid) ==> {
                &&& Some(bid.0) == old(self)@.highest_bid_length
                &&& Some(bid.1@) == old(self)@.highest_bid_suit
                &&& Some(bid.2) == old(self)@.highest_bidder
            },
            res matches Err(e) ==> e@ == "No valid bid to complete with"@,
    {
        let suit = match &self.highest_bid_suit {
            Some(s) => Some(s.clone()),
            None => None,
        };
        match (self.highest_bid_length, self.highest_bidder, suit) {
            (Some(bid_length), Some(bidder), Some(trump_suit)) => {
                let answer = trump_suit.clone();
                self.complete_bidding(trump_suit, bidder);
                Ok((bid_length, answer, bidder))
            },
            _ => Err(String::from_str("No valid bid to complete with")),
        }
    }

    /// The teams, once trump is declared: the declarer, the partner, and
    /// the two opponents in the order of the table after the declarer. The
    /// partner is the seat other than the declarer that holds the
    /// strongest permanent trump in the dealt hands, or the seat across
    /// where no other seat holds one. `None` until trump is declared.
    pub fn determine_partnerships(&self, hands: &[Vec<Card>; 4]) -> (teams: Option<
        (usize, usize, Vec<usize>),
    >)
        ensures
            teams is Some <==> self@.trump_declarer is Some,
            teams matches Some(t) ==> {
                &&& Some(t.0) == self@.trump_declarer
                &&& t.1 == partner_of(hand_views(hands@), t.0)
                &&& t.2@ == seq![opponents_of(t.0, t.1).0, opponents_of(t.0, t.1).1]
            },
    {
        match self.trump_declarer {
            Some(declarer) => {
                let partner = determine_partner(hands, declarer);
                let (first, second) = opponent_seats(declarer, partner);
                let mut opponents: Vec<usize> = Vec::new();
                opponents.push(first);
                opponents.push(second);
                assert(opponents@ =~= seq![
                    opponents_of(declarer, partner).0,
                    opponents_of(declarer, partner).1,
                ]);
                Some((declarer, partner, opponents))
            },
            None => None,
        }
    }

    /// Where bidding stands.
    pub fn get_bidding_state(&self) -> (state: BiddingState)
        ensures
            state.current_bidder == self@.current_bidder,
            state.highest_bid_length == self@.highest_bid_length,
            state.highest_bidder == self@.highest_bidder,
            opt_text(state.trump_suit) == self@.trump_suit,
            state.trump_declarer == self@.trump_declarer,
    {
        BiddingState {
            current_bidder: self.current_bidder,
            highest_bid_length: self.highest_bid_length,
            highest_bidder: self.highest_bidder,
            trump_suit: match &self.trump_suit {
                Some(s) => Some(s.clone()),
                None => None,
            },
            trump_declarer: self.trump_declarer,
        }
    }
}

} // verus!
