//! What holds of the match record: of its bidding rules, of the way back
//! to dealing, and of the two directions between the record and the hash
//! that the store holds.

use crate::normal_match::{
    field, hash_complaint, hash_of_match, is_suit_name, legal_step, match_of_hash, name_field,
    next_seat, number_field, seat_field, seat_text, status_of_text, status_text, with_field,
    MatchView, NormalMatchStatus,
};
use crate::text::{decimal, lemma_decimal_round_trip};
use vstd::prelude::*;

verus! {

/// Bid legality. For the seat on turn, with a length of 5 to 8 and one of
/// the four suits: without a bid so far every bid is legal; else a bid is
/// legal exactly when it is longer than the highest bid, or as long, in
/// clubs, and the highest bid is not in clubs.
pub proof fn lemma_bid_legality(m: MatchView, seat: usize, length: u8, suit: Seq<char>)
    requires
        m.turn_to_bid(seat),
        5 <= length <= 8,
        is_suit_name(suit),
    ensures
        m.highest_bid_length is None ==> m.bid_refusal(seat, length, suit) is None,
        m.highest_bid_length matches Some(current) ==> (m.bid_refusal(seat, length, suit) is None
            <==> length > current || (length == current && suit == "clubs"@
            && m.highest_suit_text() != "clubs"@)),
{
}

/// Clubs cannot match clubs: a bid of clubs at the length of a highest
/// bid that is in clubs itself is refused.
pub proof fn lemma_clubs_cannot_match_clubs(m: MatchView, seat: usize, length: u8)
    requires
        m.turn_to_bid(seat),
        5 <= length <= 8,
        m.highest_bid_length == Some(length),
        m.highest_bid_suit == Some("clubs"@),
    ensures
        m.bid_refusal(seat, length, "clubs"@) == Some("Cannot bid clubs to match clubs"@),
{
}

/// Going back to dealing keeps the dealer and clears the bidding: the
/// phase is dealing, the dealer is who it was, the seat to the left of
/// the dealer bids first again, and no bid, trump, declarer or leader is
/// left.
pub proof fn lemma_redeal_resets_bidding(m: MatchView)
    requires
        m.status == NormalMatchStatus::Bidding,
    ensures
        ({
            let r = m.after_reset_for_redeal();
            &&& r.status == NormalMatchStatus::Dealing
            &&& r.dealer_position == m.dealer_position
            &&& m.dealer_position matches Some(dealer) ==> r.current_bidder == Some(
                next_seat(dealer),
            )
            &&& r.highest_bid_length is None
            &&& r.highest_bidder is None
            &&& r.highest_bid_suit is None
            &&& r.trump_suit is None
            &&& r.trump_declarer is None
            &&& r.current_leader is None
            &&& r.id == m.id
            &&& r.pin == m.pin
            &&& r.number_of_crosses == m.number_of_crosses
            &&& r.current_cross == m.current_cross
            &&& r.created_timestamp == m.created_timestamp
        }),
{
}

/// Four passes without a bid call for a redeal. From the start of
/// bidding, with the seat to the left of the dealer on turn and no bid,
/// each of the four seats is on turn when it passes; the first three
/// passes change nothing but the turn, and the fourth ends in a redeal.
pub proof fn lemma_four_passes_end_in_redeal(m: MatchView, dealer: usize)
    requires
        m.status == NormalMatchStatus::Bidding,
        m.dealer_position == Some(dealer),
        m.current_bidder == Some(next_seat(dealer)),
        m.highest_bidder is None,
    ensures
        ({
            let s1 = next_seat(dealer);
            let s2 = next_seat(s1);
            let s3 = next_seat(s2);
            let s4 = next_seat(s3);
            let m1 = m.after_pass(s1);
            let m2 = m1.after_pass(s2);
            let m3 = m2.after_pass(s3);
            &&& m.turn_to_bid(s1) && !m.pass_ends_in_redeal(s1) && !m.pass_completes_bidding(s1)
            &&& m1.turn_to_bid(s2) && !m1.pass_ends_in_redeal(s2) && !m1.pass_completes_bidding(
                s2,
            )
            &&& m2.turn_to_bid(s3) && !m2.pass_ends_in_redeal(s3) && !m2.pass_completes_bidding(
                s3,
            )
            &&& m3.turn_to_bid(s4) && m3.pass_ends_in_redeal(s4) && !m3.pass_completes_bidding(s4)
        }),
{
}

/// Three passes after a bid end bidding. Once a seat at the table has
/// bid, the three seats after it are on turn one after the other; the
/// first two passes change nothing but the turn, the third ends bidding,
/// and finishing then makes the suit of the bid trump and the bidder the
/// declarer.
pub proof fn lemma_three_passes_end_bidding(
    m: MatchView,
    bidder: usize,
    length: u8,
    suit: Seq<char>,
)
    requires
        bidder < 4,
        m.bid_refusal(bidder, length, suit) is None,
    ensures
        ({
            let b = m.after_bid(bidder, length, suit);
            let s1 = next_seat(bidder);
            let s2 = next_seat(s1);
            let s3 = next_seat(s2);
            let b1 = b.after_pass(s1);
            let b2 = b1.after_pass(s2);
            let b3 = b2.after_pass(s3);
            &&& b.turn_to_bid(s1) && !b.pass_completes_bidding(s1) && !b.pass_ends_in_redeal(s1)
            &&& b1.turn_to_bid(s2) && !b1.pass_completes_bidding(s2) && !b1.pass_ends_in_redeal(s2)
            &&& b2.turn_to_bid(s3) && b2.pass_completes_bidding(s3) && !b2.pass_ends_in_redeal(s3)
            &&& b3.has_winning_bid()
            &&& b3.after_finish_bidding().status == NormalMatchStatus::Playing
            &&& b3.after_finish_bidding().trump_suit == Some(suit)
            &&& b3.after_finish_bidding().trump_declarer == Some(bidder)
            &&& m.dealer_position matches Some(dealer) ==> b3.after_finish_bidding().current_leader
                == Some(next_seat(dealer))
        }),
{
}

/// The phase moves by legal steps only: whatever the record is told,
/// dealing, bidding, bids, passes, a redeal, the end of bidding and a
/// cancellation either leave the phase as it is or take one of the steps
/// of the state machine.
pub proof fn lemma_phase_moves_by_legal_steps(
    m: MatchView,
    seat: usize,
    length: u8,
    suit: Seq<char>,
)
    ensures
        ({
            let stays_or_steps = |after: MatchView|
                after.status == m.status || legal_step(m.status, after.status);
            &&& stays_or_steps(m.after_start_dealing(seat))
            &&& stays_or_steps(m.after_start_bidding())
            &&& stays_or_steps(m.after_update_bid(seat, length))
            &&& stays_or_steps(m.after_bid(seat, length, suit))
            &&& stays_or_steps(m.after_pass(seat))
            &&& stays_or_steps(m.after_reset_for_redeal())
            &&& stays_or_steps(m.after_complete_bidding(suit, seat))
            &&& stays_or_steps(m.after_finish_bidding())
            &&& stays_or_steps(m.after_cancel())
        }),
{
}

/// The wire name of a phase reads back as the phase.
pub proof fn lemma_status_round_trip(status: NormalMatchStatus)
    ensures
        status_of_text(status_text(status)) == status,
{
    reveal_strlit("waiting");
    reveal_strlit("dealing");
    reveal_strlit("bidding");
    reveal_strlit("playing");
    reveal_strlit("completed");
    reveal_strlit("cancelled");
    assert("waiting"@[0] != "dealing"@[0]);
    assert("waiting"@[0] != "bidding"@[0]);
    assert("waiting"@[0] != "playing"@[0]);
    assert("dealing"@[0] != "bidding"@[0]);
    assert("dealing"@[0] != "playing"@[0]);
    assert("bidding"@[0] != "playing"@[0]);
    assert("completed"@[1] != "cancelled"@[1]);
}

/// The names of the fields of the hash differ from each other.
pub proof fn lemma_field_names_differ()
    ensures
        "number_of_crosses"@ != "created_timestamp"@,
        "current_bidder"@ != "current_leader"@,
        "current_bidder"@ != "trump_declarer"@,
        "current_bidder"@ != "highest_bidder"@,
        "current_leader"@ != "trump_declarer"@,
        "current_leader"@ != "highest_bidder"@,
        "trump_declarer"@ != "highest_bidder"@,
        "id"@.len() == 2,
        "pin"@.len() == 3,
        "status"@.len() == 6,
        "number_of_crosses"@.len() == 17,
        "current_cross"@.len() == 13,
        "created_timestamp"@.len() == 17,
        "dealer_position"@.len() == 15,
        "current_bidder"@.len() == 14,
        "current_leader"@.len() == 14,
        "trump_suit"@.len() == 10,
        "trump_declarer"@.len() == 14,
        "highest_bid_length"@.len() == 18,
        "highest_bidder"@.len() == 14,
        "highest_bid_suit"@.len() == 16,
{
    reveal_strlit("id");
    reveal_strlit("pin");
    reveal_strlit("status");
    reveal_strlit("number_of_crosses");
    reveal_strlit("current_cross");
    reveal_strlit("created_timestamp");
    reveal_strlit("dealer_position");
    reveal_strlit("current_bidder");
    reveal_strlit("current_leader");
    reveal_strlit("trump_suit");
    reveal_strlit("trump_declarer");
    reveal_strlit("highest_bid_length");
    reveal_strlit("highest_bidder");
    reveal_strlit("highest_bid_suit");
    assert("number_of_crosses"@[0] != "created_timestamp"@[0]);
    assert("current_bidder"@[8] != "current_leader"@[8]);
    assert("current_bidder"@[0] != "trump_declarer"@[0]);
    assert("current_bidder"@[0] != "highest_bidder"@[0]);
    assert("current_leader"@[0] != "trump_declarer"@[0]);
    assert("current_leader"@[0] != "highest_bidder"@[0]);
    assert("trump_declarer"@[0] != "highest_bidder"@[0]);
}

/// What the hash of a match holds under each of its fields.
pub proof fn lemma_fields_of_hash(m: MatchView)
    ensures
        ({
            let h = hash_of_match(m);
            &&& field(h, "id"@) == Some(m.id)
            &&& field(h, "pin"@) == Some(decimal(m.pin as nat))
            &&& field(h, "status"@) == Some(status_text(m.status))
            &&& field(h, "number_of_crosses"@) == Some(decimal(m.number_of_crosses as nat))
            &&& field(h, "current_cross"@) == Some(decimal(m.current_cross as nat))
            &&& field(h, "created_timestamp"@) == Some(decimal(m.created_timestamp as nat))
            &&& field(h, "dealer_position"@) == seat_text(m.dealer_position)
            &&& field(h, "current_bidder"@) == seat_text(m.current_bidder)
            &&& field(h, "current_leader"@) == seat_text(m.current_leader)
            &&& field(h, "trump_suit"@) == m.trump_suit
            &&& field(h, "trump_declarer"@) == seat_text(m.trump_declarer)
            &&& field(h, "highest_bid_length"@) == match m.highest_bid_length {
                Some(n) => Some(decimal(n as nat)),
                None => None,
            }
            &&& field(h, "highest_bidder"@) == seat_text(m.highest_bidder)
            &&& field(h, "highest_bid_suit"@) == m.highest_bid_suit
        }),
{
    lemma_field_names_differ();
}

/// Store round trip: the hash that is written for a match reads back as
/// the match, whenever the names of suits in it are not empty.
pub proof fn lemma_store_round_trip(m: MatchView)
    requires
        m.storable(),
    ensures
        hash_complaint(hash_of_match(m)) is None,
        match_of_hash(m.id, hash_of_match(m)) == m,
{
    let h = hash_of_match(m);
    lemma_fields_of_hash(m);
    lemma_status_round_trip(m.status);
    lemma_decimal_round_trip(m.pin as nat, u32::MAX as nat);
    lemma_decimal_round_trip(m.number_of_crosses as nat, u32::MAX as nat);
    lemma_decimal_round_trip(m.current_cross as nat, u32::MAX as nat);
    lemma_decimal_round_trip(m.created_timestamp as nat, u64::MAX as nat);
    lemma_seat_round_trip(h, "dealer_position"@, m.dealer_position);
    lemma_seat_round_trip(h, "current_bidder"@, m.current_bidder);
    lemma_seat_round_trip(h, "current_leader"@, m.current_leader);
    lemma_seat_round_trip(h, "trump_declarer"@, m.trump_declarer);
    lemma_seat_round_trip(h, "highest_bidder"@, m.highest_bidder);
    if let Some(n) = m.highest_bid_length {
        lemma_decimal_round_trip(n as nat, u8::MAX as nat);
    }
    assert(name_field(h, "trump_suit"@) == m.trump_suit);
    assert(name_field(h, "highest_bid_suit"@) == m.highest_bid_suit);
}

/// A seat that was written to a field reads back from it.
pub proof fn lemma_seat_round_trip(
    hash: Map<Seq<char>, Seq<char>>,
    key: Seq<char>,
    seat: Option<usize>,
)
    requires
        field(hash, key) == seat_text(seat),
    ensures
        seat_field(hash, key) == seat,
{
    if let Some(n) = seat {
        lemma_decimal_round_trip(n as nat, usize::MAX as nat);
    }
}

} // verus!
