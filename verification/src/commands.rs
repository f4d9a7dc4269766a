//! What the commands have in common: the steps in which a command writes
//! to the store, and the events that it publishes.
//!
//! The store has no transactions across keys. A command therefore writes
//! in an order that leaves either the state before or the state after the
//! command when it is cut short, and its outcome lists the steps in that
//! order. An instance carries out the steps one by one and publishes the
//! events only after the last.

use crate::errors::{CommandError, ErrorKind, ErrorView};
use crate::players::text_views;
use crate::store::{match_channel, user_channel, PubSubRepository};
use vstd::prelude::*;
use vstd::string::*;

verus! {

/// One write to the store.
#[derive(Debug, Clone, Copy, PartialEq, Eq, Structural)]
pub enum StoreStep {
    /// Write the record of the match.
    WriteMatch,
    /// Write the role of a user into the players of the match.
    WritePlayer,
    /// Write the match of a user into the index from user to match.
    WriteBackReference,
    /// Write the pin into the index from pin to match.
    WritePinIndex,
    /// Take the pin out of the index from pin to match.
    RemovePinIndex,
    /// Take a user out of the players of the match.
    RemovePlayer,
    /// Take a user out of the index from user to match.
    RemoveBackReference,
    /// Take every player of the match out of the index from user to match.
    ClearBackReferences,
    /// Delete every key of the match.
    DeleteMatchKeys,
    /// Delete the four hands.
    ClearHands,
    /// Write the four hands.
    WriteHands,
    /// Write the hand of one seat.
    WriteHand,
    /// Write the tricks.
    WriteTrickState,
    /// File a completed trick, to be kept for an hour.
    WriteTrickHistory,
    /// Delete the tricks.
    ClearTrickState,
    /// Write the cross.
    WriteCrossState,
    /// Write the result of the game and the seat of the partner.
    WriteGameResult,
}

/// The kinds of event.
#[derive(Debug, Clone, Copy, PartialEq, Eq, Structural)]
pub enum EventKind {
    PlayerJoined,
    PlayerLeft,
    GameTerminated,
    GameStarted,
    HandDealt,
    BidMade,
    PassMade,
    Redeal,
    BiddingComplete,
    CardPlayed,
    TrickCompleted,
    GameComplete,
    GameAborted,
}

/// An event to publish: its kind, its match, the users it concerns, and
/// a few words.
#[derive(Debug)]
pub struct Announcement {
    pub kind: EventKind,
    pub game_id: String,
    pub affected_players: Vec<String>,
    pub message: String,
}

/// An event as plain values.
pub struct AnnouncementView {
    pub kind: EventKind,
    pub game_id: Seq<char>,
    pub affected_players: Seq<Seq<char>>,
    pub message: Seq<char>,
}

impl View for Announcement {
    type V = AnnouncementView;

    open spec fn view(&self) -> AnnouncementView {
        AnnouncementView {
            kind: self.kind,
            game_id: self.game_id@,
            affected_players: text_views(self.affected_players@),
            message: self.message@,
        }
    }
}

/// The views of a list of events.
pub open spec fn announcement_views(events: Seq<Announcement>) -> Seq<AnnouncementView> {
    Seq::new(events.len(), |i: int| events[i]@)
}

/// The name of a kind of event on the wire.
pub open spec fn event_name(kind: EventKind) -> Seq<char> {
    match kind {
        EventKind::PlayerJoined => "player_joined"@,
        EventKind::PlayerLeft => "player_left"@,
        EventKind::GameTerminated => "game_terminated"@,
        EventKind::GameStarted => "game_started"@,
        EventKind::HandDealt => "hand_dealt"@,
        EventKind::BidMade => "bid_made"@,
        EventKind::PassMade => "pass_made"@,
        EventKind::Redeal => "redeal"@,
        EventKind::BiddingComplete => "bidding_complete"@,
        EventKind::CardPlayed => "card_played"@,
        EventKind::TrickCompleted => "trick_completed"@,
        EventKind::GameComplete => "game_complete"@,
        EventKind::GameAborted => "game_aborted"@,
    }
}

/// The channels of the users that an event concerns, in their order.
pub open spec fn user_channels(users: Seq<Seq<char>>) -> Seq<Seq<char>> {
    Seq::new(users.len(), |i: int| user_channel(users[i]))
}

/// The channels on which an event is published: once on the channel of
/// the match, then once on the channel of each user that it concerns. A
/// dealt hand is for its owner alone and goes to the user's channel only.
pub open spec fn publish_channels(event: AnnouncementView) -> Seq<Seq<char>> {
    if event.kind == EventKind::HandDealt {
        user_channels(event.affected_players)
    } else {
        seq![match_channel(event.game_id)] + user_channels(event.affected_players)
    }
}

/// The event that reports a match as aborted, for a refusal that tells of
/// a broken invariant; no other refusal is published.
pub open spec fn abort_event(error: ErrorView, game_id: Seq<char>, players: Seq<Seq<char>>) -> Option<
    AnnouncementView,
> {
    if error.kind == ErrorKind::Fatal {
        Some(
            AnnouncementView {
                kind: EventKind::GameAborted,
                game_id,
                affected_players: players,
                message: error.error,
            },
        )
    } else {
        None
    }
}

/// The event to publish for a refusal: a match in which an invariant was
/// found broken is reported to its players as aborted; any other refusal
/// goes to the caller alone.
pub fn abort_announcement(error: &CommandError, game_id: &str, players: Vec<String>) -> (event: Option<
    Announcement,
>)
    ensures
        match event {
            Some(e) => Some(e@) == abort_event(error@, game_id@, text_views(players@)),
            None => abort_event(error@, game_id@, text_views(players@)) is None,
        },
{
    match error.kind {
        ErrorKind::Fatal => Some(
            Announcement::new(EventKind::GameAborted, game_id, players, error.error.as_str()),
        ),
        _ => None,
    }
}

impl EventKind {
    /// The name of the kind of event on the wire.
    pub fn name(&self) -> (name: &'static str)
        ensures
            name@ == event_name(*self),
    {
        match self {
            EventKind::PlayerJoined => "player_joined",
            EventKind::PlayerLeft => "player_left",
            EventKind::GameTerminated => "game_terminated",
            EventKind::GameStarted => "game_started",
            EventKind::HandDealt => "hand_dealt",
            EventKind::BidMade => "bid_made",
            EventKind::PassMade => "pass_made",
            EventKind::Redeal => "redeal",
            EventKind::BiddingComplete => "bidding_complete",
            EventKind::CardPlayed => "card_played",
            EventKind::TrickCompleted => "trick_completed",
            EventKind::GameComplete => "game_complete",
            EventKind::GameAborted => "game_aborted",
        }
    }
}

impl Announcement {
    /// An event of a match for the given users.
    pub fn new(kind: EventKind, game_id: &str, affected_players: Vec<String>, message: &str) -> (event:
        Announcement)
        ensures
            event@ == (AnnouncementView {
                kind,
                game_id: game_id@,
                affected_players: text_views(affected_players@),
                message: message@,
            }),
    {
        Announcement {
            kind,
            game_id: String::from_str(game_id),
            affected_players,
            message: String::from_str(message),
        }
    }

    /// The channels on which the event is to be published, in order.
    pub fn channels(&self) -> (channels: Vec<String>)
        ensures
            text_views(channels@) == publish_channels(self@),
    {
        let mut channels: Vec<String> = Vec::new();
        let private = matches!(self.kind, EventKind::HandDealt);
        if !private {
            channels.push(PubSubRepository::game_channel(self.game_id.as_str()));
        }
        let ghost head = text_views(channels@);
        let mut i: usize = 0;
        while i < self.affected_players.len()
            invariant
                i <= self.affected_players@.len(),
                channels@.len() == head.len() + i,
                head.len() <= 1,
                forall|k: int| 0 <= k < head.len() ==> (#[trigger] channels@[k])@ == head[k],
                forall|k: int|
                    0 <= k < i ==> (#[trigger] channels@[head.len() + k])@ == user_channel(
                        self.affected_players@[k]@,
                    ),
            decreases self.affected_players@.len() - i,
        {
            channels.push(PubSubRepository::player_channel(self.affected_players[i].as_str()));
            i += 1;
        }
        let ghost tail = user_channels(text_views(self.affected_players@));
        assert forall|j: int| 0 <= j < channels@.len() implies text_views(channels@)[j] == (head
            + tail)[j] by {
            if j >= head.len() {
                let k = j - head.len();
                assert(channels@[head.len() + k]@ == user_channel(self.affected_players@[k]@));
            }
        }
        assert(text_views(channels@) =~= head + tail);
        assert(head =~= if private {
            Seq::<Seq<char>>::empty()
        } else {
            seq![match_channel(self.game_id@)]
        });
        channels
    }
}

} // verus!
