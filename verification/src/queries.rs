//! The commands that only look: a player's hand, the trick, the score.

use crate::bidding::opt_match;
use crate::cross::CrossState;
use crate::errors::{plain_error, CommandError, ErrorKind, ErrorView};
use crate::hand::{available_bids, trump_count_map, Hand};
use crate::normal_match::{MatchView, NormalMatch, NormalMatchStatus};
use crate::players::text_views;
use crate::schemas::{
    cross_scores_of, seat_byte, seat_to_byte, trick_info_of, BidOption, CrossScores, GameScoreInfo,
    GameTrickInfo, PlayerHandResponse, TrickSummaryResponse,
};
use crate::snapshot::codes_of;
use crate::trick::GameTrickState;
use vstd::prelude::*;
use vstd::string::*;

verus! {

/// Whether a match shows hands: while it deals, bids or plays.
pub open spec fn shows_hands(game: MatchView) -> bool {
    game.status == NormalMatchStatus::Dealing || game.status == NormalMatchStatus::Bidding
        || game.status == NormalMatchStatus::Playing
}

/// Why a hand is not shown, if it is not: the match is unknown; no game
/// is going on; the seat has no hand.
pub open spec fn hand_refusal(game: Option<MatchView>, hand_known: bool) -> Option<ErrorView> {
    if game is None {
        Some(plain_error(ErrorKind::NotFound, "Game not found"@))
    } else if !shows_hands(game->0) {
        Some(plain_error(ErrorKind::Conflict, "Game not active"@))
    } else if !hand_known {
        Some(plain_error(ErrorKind::NotFound, "Hand not found"@))
    } else {
        None
    }
}

/// Shows a player their hand: the cards, the trump counts, and, while
/// the match is in bidding, what the hand may bid. A user whose seat is
/// not known is shown the hand of seat 0.
pub fn get_player_hand(game: Option<&NormalMatch>, seat: Option<usize>, hand: Option<&Hand>) -> (res:
    Result<PlayerHandResponse, CommandError>)
    requires
        hand matches Some(h) ==> h.cards@.len() < u8::MAX,
    ensures
        res is Err <==> hand_refusal(
            match game {
                Some(g) => Some(g@),
                None => None,
            },
            hand is Some,
        ) is Some,
        res matches Err(e) ==> Some(e@) == hand_refusal(
            match game {
                Some(g) => Some(g@),
                None => None,
            },
            hand is Some,
        ),
        res matches Ok(response) ==> {
            let bidding = game->0@.status == NormalMatchStatus::Bidding;
            let options = available_bids(hand->0.cards@, game->0@.highest_bid_length);
            &&& response.message@ == "Hand retrieved successfully"@
            &&& response.game_id@ == game->0@.id
            &&& response.player_position == (match seat {
                Some(s) => seat_byte(s),
                None => 0,
            })
            &&& text_views(response.cards@) == codes_of(hand->0.cards@)
            &&& response.trump_counts@ == trump_count_map(hand->0.cards@)
            &&& response.available_bids@.len() == (if bidding {
                options.len()
            } else {
                0
            })
            &&& bidding ==> forall|i: int|
                0 <= i < options.len() ==> {
                    &&& (#[trigger] response.available_bids@[i]).length == options[i].length
                    &&& response.available_bids@[i].suit@ == options[i].suit
                    &&& response.available_bids@[i].display_text@ == options[i].display_text
                    &&& response.available_bids@[i].is_club_declaration
                        == options[i].is_club_declaration
                }
            &&& response.can_bid == (bidding && options.len() > 0)
        },
{
    let game = match game {
        Some(g) => g,
        None => {
            return Err(CommandError::new(ErrorKind::NotFound, "Game not found"));
        },
    };
    if !game.is_active() {
        return Err(CommandError::new(ErrorKind::Conflict, "Game not active"));
    }
    let hand = match hand {
        Some(h) => h,
        None => {
            return Err(CommandError::new(ErrorKind::NotFound, "Hand not found"));
        },
    };
    let mut shown: Vec<BidOption> = Vec::new();
    if game.status == NormalMatchStatus::Bidding {
        let bids = hand.get_available_bids(game.highest_bid_length);
        let mut i: usize = 0;
        while i < bids.len()
            invariant
                i <= bids@.len(),
                shown@.len() == i,
                forall|k: int|
                    0 <= k < i ==> {
                        &&& (#[trigger] shown@[k]).length == bids@[k]@.length
                        &&& shown@[k].suit@ == bids@[k]@.suit
                        &&& shown@[k].display_text@ == bids@[k]@.display_text
                        &&& shown@[k].is_club_declaration == bids@[k]@.is_club_declaration
                    },
            decreases bids@.len() - i,
        {
            shown.push(BidOption::of(&bids[i]));
            i += 1;
        }
    }
    let cards = hand.to_codes();
    assert(text_views(cards@) =~= codes_of(hand.cards@));
    let can_bid = shown.len() > 0;
    Ok(
        PlayerHandResponse {
            message: String::from_str("Hand retrieved successfully"),
            game_id: game.id.clone(),
            player_position: match seat {
                Some(s) => seat_to_byte(s),
                None => 0,
            },
            cards,
            trump_counts: hand.calculate_trump_counts(),
            available_bids: shown,
            can_bid,
        },
    )
}

/// Shows where the tricks stand. Refused where the match has no tricks.
pub fn get_trick_info(game_id: &str, tricks: Option<&GameTrickState>) -> (res: Result<
    TrickSummaryResponse,
    CommandError,
>)
    ensures
        res is Ok <==> tricks is Some,
        res matches Ok(response) ==> response.game_id@ == game_id@ && response.game_info
            == trick_info_of(tricks->0@),
        res matches Err(e) ==> e@ == plain_error(ErrorKind::NotFound, "No active trick found"@),
{
    match tricks {
        Some(t) => Ok(
            TrickSummaryResponse { game_id: String::from_str(game_id), game_info: GameTrickInfo::of(t) },
        ),
        None => Err(CommandError::new(ErrorKind::NotFound, "No active trick found")),
    }
}

/// Shows the score: where the tricks stand, and the cross, or a fresh
/// cross where the match has none yet. Refused where the match has no
/// tricks.
pub fn get_current_score(game_id: &str, tricks: Option<&GameTrickState>, cross: Option<&CrossState>) -> (res:
    Result<GameScoreInfo, CommandError>)
    ensures
        res is Ok <==> tricks is Some,
        res matches Ok(info) ==> {
            &&& info.game_id@ == game_id@
            &&& info.trick_info == trick_info_of(tricks->0@)
            &&& info.cross_scores == (match cross {
                Some(c) => cross_scores_of(c@),
                None => cross_scores_of(crate::cross::CrossView::fresh(Seq::empty())),
            })
        },
        res matches Err(e) ==> e@ == plain_error(ErrorKind::NotFound, "Trick state not found"@),
{
    match tricks {
        Some(t) => Ok(
            GameScoreInfo {
                game_id: String::from_str(game_id),
                trick_info: GameTrickInfo::of(t),
                cross_scores: match cross {
                    Some(c) => CrossScores::of(c),
                    None => CrossScores::fresh(),
                },
            },
        ),
        None => Err(CommandError::new(ErrorKind::NotFound, "Trick state not found")),
    }
}

} // verus!
