//! The layout of the shared store: under which key each part of a match
//! lives, and on which channel its events travel.
//!
//! Every instance of the server reads and writes the same store, so the
//! keys are fixed here once. All keys that belong to a match start with its
//! own key; removing the match removes all of them.

use crate::normal_match::match_key;
use crate::text::{decimal, format_u64, starts_with};
use vstd::prelude::*;
use vstd::string::*;

verus! {

/// How long the store keeps a completed trick, in seconds.
pub const TRICK_HISTORY_TTL_SECONDS: u64 = 3600;

/// After how many seconds a lock on a match is released by force.
pub const MATCH_LOCK_TTL_SECONDS: u64 = 5;

/// How many connections to the store the pool holds at least.
pub const STORE_POOL_SIZE: usize = 30;

/// The key of the hash from pin to match.
pub open spec fn pin_index_key() -> Seq<char> {
    "pin_to_match"@
}

/// The key of the hash from user to match.
pub open spec fn user_index_key() -> Seq<char> {
    "user_to_match"@
}

/// The key of the hash from user to display name.
pub open spec fn usernames_key() -> Seq<char> {
    "usernames"@
}

/// The field of the players hash that names the host.
pub open spec fn host_field() -> Seq<char> {
    "host"@
}

/// The key of the players of a match.
pub open spec fn players_key(id: Seq<char>) -> Seq<char> {
    match_key(id) + ":players"@
}

/// The key of the hand of a seat.
pub open spec fn hand_key(id: Seq<char>, seat: usize) -> Seq<char> {
    match_key(id) + ":hand:"@ + decimal(seat as nat)
}

/// The key of the tricks of a match.
pub open spec fn trick_state_key(id: Seq<char>) -> Seq<char> {
    match_key(id) + ":trick_state"@
}

/// The key of a completed trick.
pub open spec fn trick_history_key(id: Seq<char>, trick_number: u8) -> Seq<char> {
    match_key(id) + ":trick_history:"@ + decimal(trick_number as nat)
}

/// The key of the cross of a match.
pub open spec fn cross_state_key(id: Seq<char>) -> Seq<char> {
    match_key(id) + ":cross_state"@
}

/// The key of the result of the last game of a match.
pub open spec fn game_result_key(id: Seq<char>) -> Seq<char> {
    match_key(id) + ":game_result"@
}

/// The key of the lock that serialises the commands of a match.
pub open spec fn lock_key(id: Seq<char>) -> Seq<char> {
    match_key(id) + ":lock"@
}

/// The channel of the events of a match.
pub open spec fn match_channel(id: Seq<char>) -> Seq<char> {
    "match:"@ + id
}

/// The channel of the events for one user.
pub open spec fn user_channel(id: Seq<char>) -> Seq<char> {
    "user:"@ + id
}

/// All keys that belong to a match: the record, the players, the four
/// hands, the tricks, the eight completed tricks, the cross and the
/// result of the last game.
pub open spec fn match_scoped_keys(id: Seq<char>) -> Seq<Seq<char>> {
    seq![
        match_key(id),
        players_key(id),
        hand_key(id, 0),
        hand_key(id, 1),
        hand_key(id, 2),
        hand_key(id, 3),
        trick_state_key(id),
        trick_history_key(id, 1),
        trick_history_key(id, 2),
        trick_history_key(id, 3),
        trick_history_key(id, 4),
        trick_history_key(id, 5),
        trick_history_key(id, 6),
        trick_history_key(id, 7),
        trick_history_key(id, 8),
        cross_state_key(id),
        game_result_key(id),
    ]
}

/// A key made of the key of the match and what follows it.
fn scoped_key(id: &str, rest: &str) -> (key: String)
    ensures
        key@ == match_key(id@) + rest@,
{
    let mut key = String::from_str("match:");
    key.append(id);
    key.append(rest);
    key
}

/// A key made of the key of the match, what follows it, and a number.
fn numbered_key(id: &str, rest: &str, n: u64) -> (key: String)
    ensures
        key@ == match_key(id@) + rest@ + decimal(n as nat),
{
    let mut key = scoped_key(id, rest);
    let digits = format_u64(n);
    key.append(digits.as_str());
    key
}

/// Where matches live in the store.
pub struct NormalMatchRepository;

/// Where the membership of users lives in the store.
pub struct PlayerRepository;

/// Where hands live in the store.
pub struct GameStateRepository;

/// Where tricks live in the store.
pub struct TrickStateRepository;

/// Where the cross lives in the store.
pub struct CrossStateRepository;

/// The channels on which events travel.
pub struct PubSubRepository;

/// The events that tell of joining and leaving.
pub struct NotificationRepository;

impl NormalMatchRepository {
    /// The key of the hash from pin to match.
    pub fn pin_index_key() -> (key: &'static str)
        ensures
            key@ == pin_index_key(),
    {
        "pin_to_match"
    }

    /// The key of a match.
    pub fn match_key(game_id: &str) -> (key: String)
        ensures
            key@ == match_key(game_id@),
    {
        let mut key = String::from_str("match:");
        key.append(game_id);
        key
    }

    /// The key of the players of a match.
    pub fn players_key(game_id: &str) -> (key: String)
        ensures
            key@ == players_key(game_id@),
    {
        scoped_key(game_id, ":players")
    }

    /// The key of the lock of a match.
    pub fn lock_key(game_id: &str) -> (key: String)
        ensures
            key@ == lock_key(game_id@),
    {
        scoped_key(game_id, ":lock")
    }

    /// The field of the players hash that names the host.
    pub fn host_field() -> (field: &'static str)
        ensures
            field@ == host_field(),
    {
        "host"
    }

    /// All keys that belong to a match, for removing it.
    pub fn match_scoped_keys(game_id: &str) -> (keys: Vec<String>)
        ensures
            crate::players::text_views(keys@) == match_scoped_keys(game_id@),
    {
        let mut keys: Vec<String> = Vec::new();
        keys.push(NormalMatchRepository::match_key(game_id));
        keys.push(NormalMatchRepository::players_key(game_id));
        keys.push(GameStateRepository::hand_key(game_id, 0));
        keys.push(GameStateRepository::hand_key(game_id, 1));
        keys.push(GameStateRepository::hand_key(game_id, 2));
        keys.push(GameStateRepository::hand_key(game_id, 3));
        keys.push(TrickStateRepository::trick_state_key(game_id));
        keys.push(TrickStateRepository::trick_history_key(game_id, 1));
        keys.push(TrickStateRepository::trick_history_key(game_id, 2));
        keys.push(TrickStateRepository::trick_history_key(game_id, 3));
        keys.push(TrickStateRepository::trick_history_key(game_id, 4));
        keys.push(TrickStateRepository::trick_history_key(game_id, 5));
        keys.push(TrickStateRepository::trick_history_key(game_id, 6));
        keys.push(TrickStateRepository::trick_history_key(game_id, 7));
        keys.push(TrickStateRepository::trick_history_key(game_id, 8));
        keys.push(CrossStateRepository::cross_state_key(game_id));
        keys.push(GameStateRepository::game_result_key(game_id));
        assert(crate::players::text_views(keys@) =~= match_scoped_keys(game_id@));
        keys
    }
}

impl PlayerRepository {
    /// The key of the hash from user to match.
    pub fn user_index_key() -> (key: &'static str)
        ensures
            key@ == user_index_key(),
    {
        "user_to_match"
    }

    /// The key of the hash from user to display name.
    pub fn usernames_key() -> (key: &'static str)
        ensures
            key@ == usernames_key(),
    {
        "usernames"
    }
}

impl GameStateRepository {
    /// The key of the hand of a seat.
    pub fn hand_key(game_id: &str, player_position: usize) -> (key: String)
        ensures
            key@ == hand_key(game_id@, player_position),
    {
        numbered_key(game_id, ":hand:", player_position as u64)
    }

    /// The key of the result of the last game, which the snapshot of a
    /// completed match shows.
    pub fn game_result_key(game_id: &str) -> (key: String)
        ensures
            key@ == game_result_key(game_id@),
    {
        scoped_key(game_id, ":game_result")
    }
}

impl TrickStateRepository {
    /// The key of the tricks of a match.
    pub fn trick_state_key(game_id: &str) -> (key: String)
        ensures
            key@ == trick_state_key(game_id@),
    {
        scoped_key(game_id, ":trick_state")
    }

    /// The key of a completed trick, which is kept for an hour.
    pub fn trick_history_key(game_id: &str, trick_number: u8) -> (key: String)
        ensures
            key@ == trick_history_key(game_id@, trick_number),
    {
        numbered_key(game_id, ":trick_history:", trick_number as u64)
    }
}

impl CrossStateRepository {
    /// The key of the cross of a match.
    pub fn cross_state_key(match_id: &str) -> (key: String)
        ensures
            key@ == cross_state_key(match_id@),
    {
        scoped_key(match_id, ":cross_state")
    }
}

/// The length of an identifier written with hyphens: 32 hexadecimal
/// digits in five groups.
pub const UUID_TEXT_LENGTH: usize = 36;

/// A fresh random identifier as text.
///
/// Calls `uuid::Uuid::new_v4`, which draws the identifier at random, and
/// writes it with its `Display`: in lower case with hyphens, which always
/// takes 36 characters. Chance decides the value, so only the length is
/// stated.
#[verifier::external_body]
pub(crate) fn random_uuid_text() -> (text: String)
    ensures
        text@.len() == UUID_TEXT_LENGTH,
{
    uuid::Uuid::new_v4().to_string()
}

impl PubSubRepository {
    /// The channel of the events of a match.
    pub fn game_channel(game_id: &str) -> (channel: String)
        ensures
            channel@ == match_channel(game_id@),
    {
        let mut channel = String::from_str("match:");
        channel.append(game_id);
        channel
    }

    /// The channel of the events for one user.
    pub fn player_channel(player_id: &str) -> (channel: String)
        ensures
            channel@ == user_channel(player_id@),
    {
        let mut channel = String::from_str("user:");
        channel.append(player_id);
        channel
    }

    /// A name for this instance of the server: `instance:` and a random
    /// identifier.
    pub fn generate_instance_id() -> (id: String)
        ensures
            starts_with(id@, "instance:"@),
            id@.len() == "instance:"@.len() + UUID_TEXT_LENGTH,
    {
        proof {
            reveal_strlit("instance:");
        }
        let mut id = String::from_str("instance:");
        let suffix = random_uuid_text();
        id.append(suffix.as_str());
        assert(id@.subrange(0, "instance:"@.len() as int) =~= "instance:"@);
        id
    }
}

/// Every key of a match starts with the key of the match.
pub proof fn lemma_keys_are_scoped(id: Seq<char>, i: int)
    requires
        0 <= i < match_scoped_keys(id).len(),
    ensures
        starts_with(match_scoped_keys(id)[i], match_key(id)),
{
    let keys = match_scoped_keys(id);
    let prefix = match_key(id);
    assert(keys[i].subrange(0, prefix.len() as int) =~= prefix);
}

} // verus!
