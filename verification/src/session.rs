//! The session of one connected client: which command an incoming frame
//! asks for, what a client has to be sent when it subscribes to a match,
//! how events from the fabric reach local clients, and when a session is
//! given up.

use crate::errors::{plain_error, CommandError, ErrorKind, ErrorView};
use crate::lifecycle::opt_str;
use crate::normal_match::match_key;
use crate::players::text_views;
use crate::pubsub::{common, holds, list_holds, list_without, without, Registry};
use crate::store::random_uuid_text;
use crate::text::str_eq;
use vstd::prelude::*;
use vstd::string::*;

verus! {

/// How many messages the queue of a session holds.
pub const OUTBOUND_QUEUE_CAPACITY: usize = 100;

/// What an incoming frame asks for.
#[derive(Debug, Clone, Copy, PartialEq, Eq, Structural)]
pub enum InboundEvent {
    Join,
    TeamUpRequest,
    TeamUpResponse,
    BidMade,
    PassMade,
    Redeal,
    BiddingComplete,
    HandUpdate,
    GameStateUpdate,
    /// An event that this server does not know; it is ignored.
    Unknown,
}

/// What to do with a message for a session.
#[derive(Debug, Clone, Copy, PartialEq, Eq, Structural)]
pub enum QueueDecision {
    /// Put the message into the queue.
    Enqueue,
    /// The queue is full: the session is stuck and is dropped.
    DropSession,
}

/// The messages that a client is sent when it subscribes to a match.
#[derive(Debug, Clone, Copy, PartialEq, Eq, Structural)]
pub enum SessionMessage {
    /// The subscription is confirmed.
    Subscribed,
    /// The record of the match.
    GameState,
    /// The players of the match.
    PlayerList,
    /// The snapshot of the phase that the match is in.
    InitialState,
    /// The other players are told that the client is connected.
    PlayerConnected,
}

/// What a request to team up has led to.
#[derive(Debug, Clone, Copy, PartialEq, Eq, Structural)]
pub enum TeamUpRequestOutcome {
    /// The request was passed on to the other player.
    Sent,
    /// The other player does not follow the match here.
    TargetNotInGame,
    /// The other player is in a team already.
    TargetInTeam,
    /// The other player is not connected here.
    TargetNotConnected,
}

/// What the answer to a request to team up has led to.
#[derive(Debug)]
pub struct TeamUpResponseOutcome {
    /// Whether the two are a team now.
    pub accepted: bool,
    /// The team that the two are in, where they are.
    pub team_id: Option<String>,
    /// The users whose team is written to the store.
    pub members_to_write: Vec<String>,
    /// The users who are told of the answer directly.
    pub notified: Vec<String>,
    /// The other local followers of the match, who are told of the team.
    pub bystanders: Vec<String>,
}

/// An event that came over the fabric, as far as the server reads it.
#[derive(Debug)]
pub struct EventEnvelope {
    /// The name of the event, where the payload has one.
    pub event: Option<String>,
    /// The match, where the payload names one.
    pub game_id: Option<String>,
    /// The words of the event, where the payload has some.
    pub message: Option<String>,
    /// The users that the event concerns, where the payload lists them.
    pub affected_players: Option<Vec<String>>,
    /// The names of all fields of the payload.
    pub fields: Vec<String>,
}

/// What the instance forwards to its own clients for an event.
#[derive(Debug)]
pub struct FanOut {
    /// The name of the event.
    pub event: String,
    /// The match of the event.
    pub game_id: String,
    /// The words of the event.
    pub message: String,
    /// The fields of the payload that go into the data of the message,
    /// besides the match and the words.
    pub kept_fields: Vec<String>,
    /// The local clients to forward to.
    pub targets: Vec<String>,
}

/// What the name of an event asks for.
pub open spec fn event_of_name(name: Seq<char>) -> InboundEvent {
    if name == "join"@ {
        InboundEvent::Join
    } else if name == "team_up_request"@ {
        InboundEvent::TeamUpRequest
    } else if name == "team_up_response"@ {
        InboundEvent::TeamUpResponse
    } else if name == "bid_made"@ {
        InboundEvent::BidMade
    } else if name == "pass_made"@ {
        InboundEvent::PassMade
    } else if name == "redeal"@ {
        InboundEvent::Redeal
    } else if name == "bidding_complete"@ {
        InboundEvent::BiddingComplete
    } else if name == "hand_update"@ {
        InboundEvent::HandUpdate
    } else if name == "game_state_update"@ {
        InboundEvent::GameStateUpdate
    } else {
        InboundEvent::Unknown
    }
}

/// Reads the name of an event from a command envelope.
pub fn classify_event(name: &str) -> (event: InboundEvent)
    ensures
        event == event_of_name(name@),
{
    if str_eq(name, "join") {
        InboundEvent::Join
    } else if str_eq(name, "team_up_request") {
        InboundEvent::TeamUpRequest
    } else if str_eq(name, "team_up_response") {
        InboundEvent::TeamUpResponse
    } else if str_eq(name, "bid_made") {
        InboundEvent::BidMade
    } else if str_eq(name, "pass_made") {
        InboundEvent::PassMade
    } else if str_eq(name, "redeal") {
        InboundEvent::Redeal
    } else if str_eq(name, "bidding_complete") {
        InboundEvent::BiddingComplete
    } else if str_eq(name, "hand_update") {
        InboundEvent::HandUpdate
    } else if str_eq(name, "game_state_update") {
        InboundEvent::GameStateUpdate
    } else {
        InboundEvent::Unknown
    }
}

/// Decides what to do with a message for a session whose queue holds
/// `queued` messages: a full queue gives the session up.
pub fn decide_enqueue(queued: usize, capacity: usize) -> (decision: QueueDecision)
    ensures
        decision == (if queued < capacity {
            QueueDecision::Enqueue
        } else {
            QueueDecision::DropSession
        }),
{
    if queued < capacity {
        QueueDecision::Enqueue
    } else {
        QueueDecision::DropSession
    }
}

/// Why a subscription to a match is refused, if it is. In this order:
/// the request names no match; the user is in no match; the user is in
/// another match; the match is unknown.
pub open spec fn subscription_refusal(
    requested: Option<Seq<char>>,
    current_match: Option<Seq<char>>,
    game_known: bool,
) -> Option<ErrorView> {
    if requested is None {
        Some(plain_error(ErrorKind::IllegalMove, "Missing game_id in join request"@))
    } else if current_match is None {
        Some(plain_error(ErrorKind::NotFound, "Player is not a member of any game"@))
    } else if current_match != requested {
        Some(plain_error(ErrorKind::Conflict, "Player is in a different game"@))
    } else if !game_known {
        Some(plain_error(ErrorKind::NotFound, "Game not found"@))
    } else {
        None
    }
}

/// What a client is sent when it subscribes, in this order: the
/// confirmation, the record of the match, its players, and the snapshot
/// of its phase; after that the others are told of the client.
pub open spec fn subscription_messages() -> Seq<SessionMessage> {
    seq![
        SessionMessage::Subscribed,
        SessionMessage::GameState,
        SessionMessage::PlayerList,
        SessionMessage::InitialState,
        SessionMessage::PlayerConnected,
    ]
}

/// Subscribes a client to the match that it asks for.
///
/// Refused unless the request names the match that the user is in and
/// the match is known. The client is noted as a follower of the match;
/// the answer lists what to send, and says whether the instance has to
/// start listening on the channel of the match.
pub fn subscribe_to_match(
    registry: &mut Registry,
    user_id: &str,
    requested: Option<&str>,
    current_match: Option<&str>,
    game_known: bool,
) -> (res: Result<(Vec<SessionMessage>, bool), CommandError>)
    ensures
        res is Err <==> subscription_refusal(opt_str(requested), opt_str(current_match), game_known)
            is Some,
        res matches Err(e) ==> final(registry)@ == old(registry)@ && Some(e@) == subscription_refusal(
            opt_str(requested),
            opt_str(current_match),
            game_known,
        ),
        res matches Ok(answer) ==> {
            &&& answer.0@ == subscription_messages()
            &&& answer.1 == !old(registry)@.interested_in(requested->0@)
            &&& final(registry)@.follows(requested->0@, user_id@)
            &&& final(registry)@.following == old(registry)@.after_follow(requested->0@, user_id@)
            &&& final(registry)@.connections == old(registry)@.connections
        },
{
    let game_id = match requested {
        Some(id) => id,
        None => {
            return Err(CommandError::new(ErrorKind::IllegalMove, "Missing game_id in join request"));
        },
    };
    match current_match {
        None => {
            return Err(
                CommandError::new(ErrorKind::NotFound, "Player is not a member of any game"),
            );
        },
        Some(current) => {
            if !str_eq(current, game_id) {
                return Err(CommandError::new(ErrorKind::Conflict, "Player is in a different game"));
            }
        },
    }
    if !game_known {
        return Err(CommandError::new(ErrorKind::NotFound, "Game not found"));
    }
    let first = registry.subscribe_user_to_game(game_id, user_id);
    let mut messages: Vec<SessionMessage> = Vec::new();
    messages.push(SessionMessage::Subscribed);
    messages.push(SessionMessage::GameState);
    messages.push(SessionMessage::PlayerList);
    messages.push(SessionMessage::InitialState);
    messages.push(SessionMessage::PlayerConnected);
    assert(messages@ =~= subscription_messages());
    Ok((messages, first))
}

/// The players who are told that a client has connected: the other
/// players of the match who are connected to this instance.
pub fn connection_witnesses(registry: &Registry, player_ids: &Vec<String>, user_id: &str) -> (witnesses: Vec<String>)
    ensures
        text_views(witnesses@) == common(
            without(text_views(player_ids@), user_id@),
            registry@.connections,
        ),
{
    let others = list_without(player_ids, user_id);
    registry.forward_targets(&others)
}

/// What a request to team up leads to: it is passed on where the other
/// player follows the match here, is in no team, and is connected.
pub open spec fn team_up_request_outcome(
    target_follows: bool,
    target_in_team: bool,
    target_connected: bool,
) -> TeamUpRequestOutcome {
    if !target_follows {
        TeamUpRequestOutcome::TargetNotInGame
    } else if target_in_team {
        TeamUpRequestOutcome::TargetInTeam
    } else if !target_connected {
        TeamUpRequestOutcome::TargetNotConnected
    } else {
        TeamUpRequestOutcome::Sent
    }
}

/// Decides what becomes of a request to team up with another player.
pub fn team_up_request(registry: &Registry, game_id: &str, target_player_id: &str, target_in_team: bool) -> (outcome:
    TeamUpRequestOutcome)
    ensures
        outcome == team_up_request_outcome(
            registry@.follows(game_id@, target_player_id@),
            target_in_team,
            registry@.connected(target_player_id@),
        ),
{
    if !registry.is_following(game_id, target_player_id) {
        TeamUpRequestOutcome::TargetNotInGame
    } else if target_in_team {
        TeamUpRequestOutcome::TargetInTeam
    } else if !registry.is_connected(target_player_id) {
        TeamUpRequestOutcome::TargetNotConnected
    } else {
        TeamUpRequestOutcome::Sent
    }
}

/// The words that tell a requestor why a request to team up went nowhere.
pub fn team_up_refusal_text(outcome: TeamUpRequestOutcome) -> (text: &'static str)
    ensures
        text@ == (match outcome {
            TeamUpRequestOutcome::Sent => "Team up request sent to player!"@,
            TeamUpRequestOutcome::TargetNotInGame => "Target player is not in this game"@,
            TeamUpRequestOutcome::TargetInTeam => "Target player is already in a team"@,
            TeamUpRequestOutcome::TargetNotConnected => "Target player is not currently connected"@,
        }),
{
    match outcome {
        TeamUpRequestOutcome::Sent => "Team up request sent to player!",
        TeamUpRequestOutcome::TargetNotInGame => "Target player is not in this game",
        TeamUpRequestOutcome::TargetInTeam => "Target player is already in a team",
        TeamUpRequestOutcome::TargetNotConnected => "Target player is not currently connected",
    }
}

/// The key of the hash from player to team of a match.
pub fn player_teams_key(game_id: &str) -> (key: String)
    ensures
        key@ == match_key(game_id@) + ":player_teams"@,
{
    let mut key = String::from_str("match:");
    key.append(game_id);
    key.append(":player_teams");
    key
}

/// The key of the members of a team of a match.
pub fn team_key(game_id: &str, team_id: &str) -> (key: String)
    ensures
        key@ == match_key(game_id@) + ":team:"@ + team_id@,
{
    let mut key = String::from_str("match:");
    key.append(game_id);
    key.append(":team:");
    key.append(team_id);
    key
}

/// A name for a new team: `team_` and a random identifier.
pub fn new_team_id() -> (id: String)
    ensures
        crate::text::starts_with(id@, "team_"@),
        id@.len() == "team_"@.len() + crate::store::UUID_TEXT_LENGTH,
{
    let mut id = String::from_str("team_");
    let suffix = random_uuid_text();
    id.append(suffix.as_str());
    assert(id@.subrange(0, "team_"@.len() as int) =~= "team_"@);
    id
}

/// Answers a request to team up, with the team to found should the
/// requester have none.
///
/// Where the answer is yes, the responder joins the team of the
/// requester, or the two found the new team; both are told, and the other
/// local followers of the match learn of the team. Where the answer is no,
/// the requester alone is told.
pub fn team_up_response(
    registry: &Registry,
    followers: &Vec<String>,
    user_id: &str,
    from_player_id: &str,
    accepted: bool,
    requester_team: Option<String>,
    new_team: String,
) -> (outcome: TeamUpResponseOutcome)
    ensures
        outcome.accepted == accepted,
        !accepted ==> {
            &&& outcome.team_id is None
            &&& outcome.members_to_write@.len() == 0
            &&& text_views(outcome.notified@) == seq![from_player_id@]
            &&& outcome.bystanders@.len() == 0
        },
        accepted ==> {
            &&& outcome.team_id is Some
            &&& outcome.team_id->0@ == (match requester_team {
                Some(team) => team@,
                None => new_team@,
            })
            &&& text_views(outcome.members_to_write@) == (if requester_team is Some {
                seq![user_id@]
            } else {
                seq![user_id@, from_player_id@]
            })
            &&& text_views(outcome.notified@) == seq![from_player_id@, user_id@]
            &&& text_views(outcome.bystanders@) == common(
                without(without(text_views(followers@), user_id@), from_player_id@),
                registry@.connections,
            )
        },
{
    let mut notified: Vec<String> = Vec::new();
    notified.push(String::from_str(from_player_id));
    if !accepted {
        assert(text_views(notified@) =~= seq![from_player_id@]);
        return TeamUpResponseOutcome {
            accepted,
            team_id: None,
            members_to_write: Vec::new(),
            notified,
            bystanders: Vec::new(),
        };
    }
    notified.push(String::from_str(user_id));
    assert(text_views(notified@) =~= seq![from_player_id@, user_id@]);
    let mut members: Vec<String> = Vec::new();
    members.push(String::from_str(user_id));
    let team_id = match requester_team {
        Some(team) => {
            assert(text_views(members@) =~= seq![user_id@]);
            team
        },
        None => {
            members.push(String::from_str(from_player_id));
            assert(text_views(members@) =~= seq![user_id@, from_player_id@]);
            new_team
        },
    };
    let others = list_without(followers, user_id);
    let others = list_without(&others, from_player_id);
    let bystanders = registry.forward_targets(&others);
    TeamUpResponseOutcome {
        accepted,
        team_id: Some(team_id),
        members_to_write: members,
        notified,
        bystanders,
    }
}

/// The fields of a payload that do not go into the data of a forwarded
/// message, because the message carries them itself.
pub open spec fn is_envelope_field(name: Seq<char>) -> bool {
    name == "event"@ || name == "affected_players"@ || name == "message"@ || name == "game_id"@
}

/// The fields that go into the data, in their order.
pub open spec fn data_fields(fields: Seq<Seq<char>>) -> Seq<Seq<char>>
    decreases fields.len(),
{
    if fields.len() == 0 {
        Seq::empty()
    } else if is_envelope_field(fields.last()) {
        data_fields(fields.drop_last())
    } else {
        data_fields(fields.drop_last()).push(fields.last())
    }
}

/// A text, or a fallback where it is missing.
pub open spec fn text_or(text: Option<String>, fallback: Seq<char>) -> Seq<char> {
    match text {
        Some(t) => t@,
        None => fallback,
    }
}

/// Decides what the instance forwards for an event that came over the
/// fabric. An event that lists no users is forwarded to nobody. Else the
/// event goes to each user that it concerns and that is connected to this
/// instance, with `game_update` for a missing name, `Game update` for
/// missing words, and every other field of the payload as data.
pub fn fan_out(registry: &Registry, envelope: &EventEnvelope) -> (forward: Option<FanOut>)
    ensures
        forward is Some <==> envelope.affected_players is Some,
        forward matches Some(f) ==> {
            &&& f.event@ == text_or(envelope.event, "game_update"@)
            &&& f.game_id@ == text_or(envelope.game_id, Seq::empty())
            &&& f.message@ == text_or(envelope.message, "Game update"@)
            &&& text_views(f.kept_fields@) == data_fields(text_views(envelope.fields@))
            &&& text_views(f.targets@) == common(
                text_views(envelope.affected_players->0@),
                registry@.connections,
            )
        },
{
    let affected = match &envelope.affected_players {
        Some(players) => players,
        None => {
            return None;
        },
    };
    let event = match &envelope.event {
        Some(name) => name.clone(),
        None => String::from_str("game_update"),
    };
    let game_id = match &envelope.game_id {
        Some(id) => id.clone(),
        None => String::new(),
    };
    let message = match &envelope.message {
        Some(words) => words.clone(),
        None => String::from_str("Game update"),
    };
    let mut kept: Vec<String> = Vec::new();
    let ghost all = text_views(envelope.fields@);
    let mut i: usize = 0;
    assert(all.subrange(0, 0) =~= Seq::<Seq<char>>::empty());
    assert(text_views(kept@) =~= Seq::<Seq<char>>::empty());
    while i < envelope.fields.len()
        invariant
            i <= envelope.fields@.len(),
            all == text_views(envelope.fields@),
            text_views(kept@) == data_fields(all.subrange(0, i as int)),
        decreases envelope.fields@.len() - i,
    {
        let ghost before = text_views(kept@);
        proof {
            assert(all.subrange(0, i + 1).drop_last() =~= all.subrange(0, i as int));
            assert(all.subrange(0, i + 1).last() == envelope.fields@[i as int]@);
        }
        let name = envelope.fields[i].as_str();
        let own = str_eq(name, "event") || str_eq(name, "affected_players") || str_eq(
            name,
            "message",
        ) || str_eq(name, "game_id");
        if !own {
            kept.push(envelope.fields[i].clone());
            assert(text_views(kept@) =~= before.push(envelope.fields@[i as int]@));
        }
        i += 1;
    }
    assert(all.subrange(0, all.len() as int) =~= all);
    let targets = registry.forward_targets(affected);
    Some(FanOut { event, game_id, message, kept_fields: kept, targets })
}

} // verus!
