//! What one instance of the server knows of its own clients: who is
//! connected, who follows which match, and which channels the instance
//! has to listen on.
//!
//! The instance listens on the channel of a match as long as one of its
//! own clients follows the match, and on the channel of a user as long as
//! the user is connected. Both follow from what is kept here, so they
//! cannot fall out of step with it.
//!
//! Who follows which match is kept in a `dashmap::DashMap` from the match
//! to its followers. What is said of that map here is taken on trust from
//! its source: [`followers_in`] names what it holds, and the five small
//! functions below it say what its methods do to that.

use crate::players::text_views;
use crate::store::{match_channel, user_channel, PubSubRepository};
use crate::text::str_eq;
use dashmap::DashMap;
use vstd::prelude::*;
use vstd::string::*;

verus! {

/// The type `dashmap::DashMap`, of which nothing inside is seen here.
#[verifier::external_type_specification]
#[verifier::external_body]
#[verifier::reject_recursive_types(K)]
#[verifier::reject_recursive_types(V)]
#[verifier::reject_recursive_types(S)]
pub struct ExDashMap<K, V, S>(DashMap<K, V, S>);

/// What a map from matches to followers holds: for each match that has an
/// entry, the users of the entry in their order.
pub uninterp spec fn followers_in(map: DashMap<String, Vec<String>>) -> Map<Seq<char>, Seq<Seq<char>>>;

/// A map without entries.
pub open spec fn no_followers() -> Map<Seq<char>, Seq<Seq<char>>> {
    Map::empty()
}

/// The users listed for a match, none where the match has no entry.
pub open spec fn listed(map: Map<Seq<char>, Seq<Seq<char>>>, game: Seq<char>) -> Seq<Seq<char>> {
    if map.dom().contains(game) {
        map[game]
    } else {
        Seq::empty()
    }
}

/// A new map.
///
/// Calls `DashMap::new`, which makes a map without entries.
#[verifier::external_body]
fn followers_new() -> (made: DashMap<String, Vec<String>>)
    ensures
        followers_in(made) == no_followers(),
{
    DashMap::new()
}

/// The entry of a match, copied out.
///
/// Calls `DashMap::get`, which finds the entry of a key if there is one;
/// the value of the entry is cloned.
#[verifier::external_body]
fn followers_of(map: &DashMap<String, Vec<String>>, game: &str) -> (users: Option<Vec<String>>)
    ensures
        users is Some <==> followers_in(*map).dom().contains(game@),
        users matches Some(list) ==> text_views(list@) == followers_in(*map)[game@],
{
    map.get(game).map(|entry| entry.value().clone())
}

/// Sets the entry of a match.
///
/// Calls `DashMap::insert`, which puts the value under the key and
/// replaces what was there; every other entry stays.
#[verifier::external_body]
fn followers_put(map: &mut DashMap<String, Vec<String>>, game: &str, users: Vec<String>)
    ensures
        followers_in(*final(map)) == followers_in(*old(map)).insert(game@, text_views(users@)),
{
    map.insert(game.to_string(), users);
}

/// Takes the entry of a match away.
///
/// Calls `DashMap::remove`, which removes the entry of the key if there
/// is one; every other entry stays.
#[verifier::external_body]
fn followers_drop(map: &mut DashMap<String, Vec<String>>, game: &str)
    ensures
        followers_in(*final(map)) == followers_in(*old(map)).remove(game@),
{
    map.remove(game);
}

/// The matches that have an entry, each once, in no particular order.
///
/// Calls `DashMap::iter`, which visits every entry once, in an order
/// that the map does not promise; the keys are cloned.
#[verifier::external_body]
fn followed_games(map: &DashMap<String, Vec<String>>) -> (games: Vec<String>)
    ensures
        distinct(text_views(games@)),
        forall|game: Seq<char>|
            #![trigger holds(text_views(games@), game)]
            holds(text_views(games@), game) <==> followers_in(*map).dom().contains(game),
{
    map.iter().map(|entry| entry.key().clone()).collect()
}

/// The clients of one instance.
#[derive(Debug)]
pub struct Registry {
    /// The users with an open connection, each once.
    pub connections: Vec<String>,
    /// Who follows which match: for each match its followers, each once.
    pub game_players: DashMap<String, Vec<String>>,
}

/// Whether a text is in a list.
pub open spec fn holds(texts: Seq<Seq<char>>, text: Seq<char>) -> bool {
    exists|i: int| 0 <= i < texts.len() && #[trigger] texts[i] == text
}

/// No text is in the list twice.
pub open spec fn distinct(texts: Seq<Seq<char>>) -> bool {
    forall|i: int, j: int| 0 <= i < j < texts.len() ==> #[trigger] texts[i] != #[trigger] texts[j]
}

/// The texts of a list without one of them, in their order.
pub open spec fn without(texts: Seq<Seq<char>>, text: Seq<char>) -> Seq<Seq<char>>
    decreases texts.len(),
{
    if texts.len() == 0 {
        Seq::empty()
    } else if texts.last() == text {
        without(texts.drop_last(), text)
    } else {
        without(texts.drop_last(), text).push(texts.last())
    }
}

/// The texts of a list that are also in another, in their order.
pub open spec fn common(texts: Seq<Seq<char>>, others: Seq<Seq<char>>) -> Seq<Seq<char>>
    decreases texts.len(),
{
    if texts.len() == 0 {
        Seq::empty()
    } else if holds(others, texts.last()) {
        common(texts.drop_last(), others).push(texts.last())
    } else {
        common(texts.drop_last(), others)
    }
}

/// Whether a text is among the first `n` of a list.
pub open spec fn among_first(texts: Seq<Seq<char>>, n: int, text: Seq<char>) -> bool {
    exists|k: int| 0 <= k < n && k < texts.len() && #[trigger] texts[k] == text
}

/// The clients of an instance as plain values.
pub struct RegistryView {
    pub connections: Seq<Seq<char>>,
    pub following: Map<Seq<char>, Seq<Seq<char>>>,
}

impl View for Registry {
    type V = RegistryView;

    open spec fn view(&self) -> RegistryView {
        RegistryView {
            connections: text_views(self.connections@),
            following: followers_in(self.game_players),
        }
    }
}

impl RegistryView {
    /// Whether a user is connected to this instance.
    pub open spec fn connected(self, user: Seq<char>) -> bool {
        holds(self.connections, user)
    }

    /// The users that follow a match on this instance.
    pub open spec fn followers(self, game: Seq<char>) -> Seq<Seq<char>> {
        listed(self.following, game)
    }

    /// Whether a user follows a match on this instance.
    pub open spec fn follows(self, game: Seq<char>, user: Seq<char>) -> bool {
        holds(self.followers(game), user)
    }

    /// Whether this instance has a client that follows the match.
    pub open spec fn interested_in(self, game: Seq<char>) -> bool {
        self.followers(game).len() > 0
    }

    /// Whether this instance has to listen on a channel: the channel of a
    /// match that one of its clients follows, or of a user that is
    /// connected to it.
    pub open spec fn listens_on(self, channel: Seq<char>) -> bool {
        (exists|game: Seq<char>| #[trigger]
            self.interested_in(game) && channel == match_channel(game)) || (exists|i: int|
            0 <= i < self.connections.len() && channel == user_channel(
                #[trigger] self.connections[i],
            ))
    }

    /// Who follows which match once a user follows a match: as before
    /// where the user follows it already, else with the user as the last
    /// follower of the match.
    pub open spec fn after_follow(self, game: Seq<char>, user: Seq<char>) -> Map<
        Seq<char>,
        Seq<Seq<char>>,
    > {
        if self.follows(game, user) {
            self.following
        } else {
            self.following.insert(game, self.followers(game).push(user))
        }
    }
}

/// Leaving out a text leaves the others, and nothing else.
pub proof fn lemma_without(texts: Seq<Seq<char>>, text: Seq<char>)
    ensures
        forall|t: Seq<char>|
            #![trigger holds(without(texts, text), t)]
            holds(without(texts, text), t) <==> holds(texts, t) && t != text,
        without(texts, text).len() <= texts.len(),
    decreases texts.len(),
{
    let out = without(texts, text);
    if texts.len() > 0 {
        let rest = texts.drop_last();
        let last = texts.last();
        let inner = without(rest, text);
        lemma_without(rest, text);
        assert forall|t: Seq<char>| #![trigger holds(out, t)] holds(out, t) <==> holds(texts, t) && t
            != text by {
            if holds(out, t) {
                let i = choose|i: int| 0 <= i < out.len() && #[trigger] out[i] == t;
                if last != text && i == inner.len() {
                    assert(texts[texts.len() - 1] == t);
                } else {
                    assert(inner[i] == t);
                    assert(holds(inner, t));
                    let j = choose|j: int| 0 <= j < rest.len() && #[trigger] rest[j] == t;
                    assert(texts[j] == t);
                }
            }
            if holds(texts, t) && t != text {
                let j = choose|j: int| 0 <= j < texts.len() && #[trigger] texts[j] == t;
                if j == texts.len() - 1 {
                    assert(out[inner.len() as int] == t);
                } else {
                    assert(rest[j] == t);
                    assert(holds(rest, t));
                    assert(holds(inner, t));
                    let i = choose|i: int| 0 <= i < inner.len() && #[trigger] inner[i] == t;
                    assert(out[i] == t);
                }
            }
        }
    } else {
        assert forall|t: Seq<char>| #![trigger holds(out, t)] !holds(out, t) && !holds(texts, t) by {}
    }
}

/// Whether a list holds a text.
pub fn list_holds(texts: &Vec<String>, text: &str) -> (found: bool)
    ensures
        found == holds(text_views(texts@), text@),
{
    let mut i: usize = 0;
    while i < texts.len()
        invariant
            i <= texts@.len(),
            forall|k: int| 0 <= k < i ==> (#[trigger] text_views(texts@)[k]) != text@,
        decreases texts@.len() - i,
    {
        if str_eq(texts[i].as_str(), text) {
            assert(text_views(texts@)[i as int] == text@);
            return true;
        }
        i += 1;
    }
    false
}

/// The list without a text.
pub fn list_without(texts: &Vec<String>, text: &str) -> (rest: Vec<String>)
    ensures
        text_views(rest@) == without(text_views(texts@), text@),
{
    let mut rest: Vec<String> = Vec::new();
    let mut i: usize = 0;
    let ghost all = text_views(texts@);
    assert(all.subrange(0, 0) =~= Seq::<Seq<char>>::empty());
    assert(text_views(rest@) =~= Seq::<Seq<char>>::empty());
    while i < texts.len()
        invariant
            i <= texts@.len(),
            all == text_views(texts@),
            text_views(rest@) == without(all.subrange(0, i as int), text@),
        decreases texts@.len() - i,
    {
        let ghost before = text_views(rest@);
        proof {
            assert(all.subrange(0, i + 1).drop_last() =~= all.subrange(0, i as int));
            assert(all.subrange(0, i + 1).last() == texts@[i as int]@);
        }
        if !str_eq(texts[i].as_str(), text) {
            rest.push(texts[i].clone());
            assert(text_views(rest@) =~= before.push(texts@[i as int]@));
        }
        i += 1;
    }
    assert(all.subrange(0, all.len() as int) =~= all);
    rest
}

impl Registry {
    /// An instance without clients.
    pub fn new() -> (registry: Registry)
        ensures
            registry@.connections.len() == 0,
            registry@.following == no_followers(),
    {
        Registry { connections: Vec::new(), game_players: followers_new() }
    }

    /// Whether a user is connected to this instance.
    pub fn is_connected(&self, user_id: &str) -> (connected: bool)
        ensures
            connected == self@.connected(user_id@),
    {
        list_holds(&self.connections, user_id)
    }

    /// Whether a user follows a match on this instance.
    pub fn is_following(&self, game_id: &str, user_id: &str) -> (follows: bool)
        ensures
            follows == self@.follows(game_id@, user_id@),
    {
        match followers_of(&self.game_players, game_id) {
            Some(list) => list_holds(&list, user_id),
            None => false,
        }
    }

    /// Whether this instance has a client that follows the match.
    pub fn has_interest_in(&self, game_id: &str) -> (interested: bool)
        ensures
            interested == self@.interested_in(game_id@),
    {
        match followers_of(&self.game_players, game_id) {
            Some(list) => list.len() > 0,
            None => false,
        }
    }

    /// The matches that a client of this instance follows, each once, in
    /// no particular order.
    pub fn followed(&self) -> (games: Vec<String>)
        ensures
            distinct(text_views(games@)),
            forall|game: Seq<char>|
                #![trigger holds(text_views(games@), game)]
                holds(text_views(games@), game) <==> self@.interested_in(game),
    {
        let all = followed_games(&self.game_players);
        let ghost names = text_views(all@);
        let mut games: Vec<String> = Vec::new();
        let mut i: usize = 0;
        while i < all.len()
            invariant
                i <= all@.len(),
                names == text_views(all@),
                distinct(names),
                forall|game: Seq<char>|
                    #![trigger holds(names, game)]
                    holds(names, game) <==> self@.following.dom().contains(game),
                forall|k: int|
                    0 <= k < games@.len() ==> among_first(names, i as int, #[trigger] text_views(games@)[k])
                        && self@.interested_in(text_views(games@)[k]),
                forall|k: int|
                    0 <= k < i && self@.interested_in(#[trigger] names[k]) ==> holds(
                        text_views(games@),
                        names[k],
                    ),
                distinct(text_views(games@)),
            decreases all@.len() - i,
        {
            let ghost before = text_views(games@);
            let ghost game = names[i as int];
            assert(game == all@[i as int]@);
            if self.has_interest_in(all[i].as_str()) {
                games.push(all[i].clone());
                proof {
                    let now = text_views(games@);
                    assert(now =~= before.push(game));
                    assert forall|x: int, y: int| 0 <= x < y < now.len() implies #[trigger] now[x]
                        != #[trigger] now[y] by {
                        if y == before.len() {
                            assert(now[x] == before[x]);
                            assert(among_first(names, i as int, before[x]));
                        }
                    }
                    assert forall|k: int| 0 <= k < i + 1 && self@.interested_in(
                        #[trigger] names[k],
                    ) implies holds(now, names[k]) by {
                        if k < i {
                            let j = choose|j: int|
                                0 <= j < before.len() && #[trigger] before[j] == names[k];
                            assert(now[j] == names[k]);
                        } else {
                            assert(now[before.len() as int] == names[k]);
                        }
                    }
                    assert forall|k: int| 0 <= k < now.len() implies among_first(
                        names,
                        i + 1,
                        #[trigger] now[k],
                    ) && self@.interested_in(now[k]) by {
                        if k < before.len() {
                            assert(now[k] == before[k]);
                            let j = choose|j: int|
                                0 <= j < i && j < names.len() && #[trigger] names[j] == before[k];
                            assert(names[j] == now[k]);
                        } else {
                            assert(names[i as int] == now[k]);
                        }
                    }
                }
            } else {
                proof {
                    assert forall|k: int| 0 <= k < before.len() implies among_first(
                        names,
                        i + 1,
                        #[trigger] before[k],
                    ) by {
                        let j = choose|j: int|
                            0 <= j < i && j < names.len() && #[trigger] names[j] == before[k];
                        assert(names[j] == before[k]);
                    }
                }
            }
            i += 1;
        }
        proof {
            let now = text_views(games@);
            assert forall|game: Seq<char>| #![trigger holds(now, game)] holds(now, game)
                <==> self@.interested_in(game) by {
                if holds(now, game) {
                    let k = choose|k: int| 0 <= k < now.len() && #[trigger] now[k] == game;
                    assert(self@.interested_in(now[k]));
                }
                if self@.interested_in(game) {
                    assert(self@.following.dom().contains(game));
                    assert(holds(names, game));
                    let k = choose|k: int| 0 <= k < names.len() && #[trigger] names[k] == game;
                    assert(holds(now, names[k]));
                }
            }
        }
        games
    }

    /// Notes that a user has connected. Says whether that is new to the
    /// instance, which then has to listen on the channel of the user.
    pub fn connect(&mut self, user_id: &str) -> (first: bool)
        ensures
            first == !old(self)@.connected(user_id@),
            final(self)@.following == old(self)@.following,
            final(self)@.connections == (if first {
                old(self)@.connections.push(user_id@)
            } else {
                old(self)@.connections
            }),
            final(self)@.connected(user_id@),
    {
        if self.is_connected(user_id) {
            return false;
        }
        let ghost before = self@.connections;
        self.connections.push(String::from_str(user_id));
        assert(self@.connections =~= before.push(user_id@));
        assert(self@.connections[before.len() as int] == user_id@);
        true
    }

    /// Notes that a local client follows a match. Says whether the client
    /// is the first of this instance to follow the match, which then has
    /// to listen on the channel of the match.
    pub fn subscribe_user_to_game(&mut self, game_id: &str, user_id: &str) -> (first: bool)
        ensures
            first == !old(self)@.interested_in(game_id@),
            final(self)@.connections == old(self)@.connections,
            final(self)@.following == old(self)@.after_follow(game_id@, user_id@),
            final(self)@.follows(game_id@, user_id@),
            final(self)@.interested_in(game_id@),
    {
        let ghost before = self@.followers(game_id@);
        let mut list = match followers_of(&self.game_players, game_id) {
            Some(list) => list,
            None => Vec::new(),
        };
        assert(text_views(list@) =~= before);
        let first = list.len() == 0;
        if list_holds(&list, user_id) {
            proof {
                let i = choose|i: int| 0 <= i < before.len() && #[trigger] before[i] == user_id@;
            }
            return first;
        }
        list.push(String::from_str(user_id));
        assert(text_views(list@) =~= before.push(user_id@));
        assert(text_views(list@)[before.len() as int] == user_id@);
        followers_put(&mut self.game_players, game_id, list);
        assert(self@.followers(game_id@) == before.push(user_id@));
        first
    }

    /// Tears a session down: the user is connected no more and follows no
    /// match on this instance. Everybody else stays as they are, and a
    /// match that nobody follows any more has no entry left.
    pub fn disconnect(&mut self, user_id: &str)
        ensures
            final(self)@.connections == without(old(self)@.connections, user_id@),
            !final(self)@.connected(user_id@),
            forall|game: Seq<char>|
                #![trigger final(self)@.followers(game)]
                final(self)@.followers(game) == without(old(self)@.followers(game), user_id@),
            forall|game: Seq<char>, user: Seq<char>|
                #![trigger final(self)@.follows(game, user)]
                final(self)@.follows(game, user) <==> old(self)@.follows(game, user) && user
                    != user_id@,
    {
        proof {
            lemma_without(self@.connections, user_id@);
        }
        let kept = list_without(&self.connections, user_id);
        self.connections = kept;
        let games = followed_games(&self.game_players);
        let ghost names = text_views(games@);
        let ghost start = old(self)@.following;
        let mut i: usize = 0;
        while i < games.len()
            invariant
                i <= games@.len(),
                names == text_views(games@),
                distinct(names),
                start == old(self)@.following,
                self@.connections == without(old(self)@.connections, user_id@),
                forall|game: Seq<char>|
                    #![trigger holds(names, game)]
                    holds(names, game) <==> start.dom().contains(game),
                forall|game: Seq<char>|
                    #![trigger among_first(names, i as int, game)]
                    among_first(names, i as int, game) ==> listed(self@.following, game) == without(
                        listed(start, game),
                        user_id@,
                    ),
                forall|game: Seq<char>|
                    #![trigger among_first(names, i as int, game)]
                    !among_first(names, i as int, game) ==> (self@.following.dom().contains(game)
                        <==> start.dom().contains(game)) && listed(self@.following, game) == listed(
                        start,
                        game,
                    ),
            decreases games@.len() - i,
        {
            let ghost game = names[i as int];
            let ghost now = self@.following;
            proof {
                assert(game == games@[i as int]@);
                assert(holds(names, game));
                if among_first(names, i as int, game) {
                    let k = choose|k: int| 0 <= k < i && k < names.len() && #[trigger] names[k] == game;
                    assert(names[k] != names[i as int]);
                }
                assert(!among_first(names, i as int, game));
                assert(now.dom().contains(game));
            }
            match followers_of(&self.game_players, games[i].as_str()) {
                Some(list) => {
                    let rest = list_without(&list, user_id);
                    if rest.len() == 0 {
                        assert(text_views(rest@) =~= Seq::<Seq<char>>::empty());
                        followers_drop(&mut self.game_players, games[i].as_str());
                    } else {
                        followers_put(&mut self.game_players, games[i].as_str(), rest);
                    }
                },
                None => {},
            }
            proof {
                let next = self@.following;
                assert(listed(next, game) == without(listed(start, game), user_id@));
                assert forall|other: Seq<char>| other != game implies listed(next, other) == listed(
                    now,
                    other,
                ) && (next.dom().contains(other) <==> now.dom().contains(other)) by {}
                assert forall|other: Seq<char>|
                    #![trigger among_first(names, i + 1, other)]
                    among_first(names, i + 1, other) <==> among_first(names, i as int, other)
                        || other == game by {
                    if among_first(names, i + 1, other) {
                        let k = choose|k: int|
                            0 <= k < i + 1 && k < names.len() && #[trigger] names[k] == other;
                        if k < i {
                            assert(among_first(names, i as int, other));
                        }
                    }
                    if among_first(names, i as int, other) {
                        let k = choose|k: int|
                            0 <= k < i && k < names.len() && #[trigger] names[k] == other;
                        assert(names[k] == other);
                    }
                    if other == game {
                        assert(names[i as int] == other);
                    }
                }
                assert forall|other: Seq<char>|
                    #![trigger among_first(names, i + 1, other)]
                    among_first(names, i + 1, other) implies listed(next, other) == without(
                        listed(start, other),
                        user_id@,
                    ) by {
                    if other != game {
                        assert(among_first(names, i as int, other));
                    }
                }
                assert forall|other: Seq<char>|
                    #![trigger among_first(names, i + 1, other)]
                    !among_first(names, i + 1, other) implies (next.dom().contains(other)
                        <==> start.dom().contains(other)) && listed(next, other) == listed(
                        start,
                        other,
                    ) by {
                    assert(other != game);
                    assert(!among_first(names, i as int, other));
                }
            }
            i += 1;
        }
        proof {
            let after = self@;
            assert forall|game: Seq<char>| #![trigger after.followers(game)] after.followers(game)
                == without(old(self)@.followers(game), user_id@) by {
                if among_first(names, i as int, game) {
                } else {
                    if start.dom().contains(game) {
                        assert(holds(names, game));
                        let k = choose|k: int| 0 <= k < names.len() && #[trigger] names[k] == game;
                        assert(among_first(names, i as int, game));
                    }
                    assert(listed(start, game) =~= Seq::<Seq<char>>::empty());
                    assert(without(listed(start, game), user_id@) =~= Seq::<Seq<char>>::empty());
                }
            }
            assert forall|game: Seq<char>, user: Seq<char>|
                #![trigger after.follows(game, user)]
                after.follows(game, user) <==> old(self)@.follows(game, user) && user
                    != user_id@ by {
                assert(after.followers(game) == without(old(self)@.followers(game), user_id@));
                lemma_without(old(self)@.followers(game), user_id@);
            }
        }
    }

    /// The users to forward an event to: those that the event concerns and
    /// that are connected to this instance, in the order of the event.
    pub fn forward_targets(&self, affected_players: &Vec<String>) -> (targets: Vec<String>)
        ensures
            text_views(targets@) == common(text_views(affected_players@), self@.connections),
    {
        let mut targets: Vec<String> = Vec::new();
        let ghost all = text_views(affected_players@);
        let mut i: usize = 0;
        assert(all.subrange(0, 0) =~= Seq::<Seq<char>>::empty());
        assert(text_views(targets@) =~= Seq::<Seq<char>>::empty());
        while i < affected_players.len()
            invariant
                i <= affected_players@.len(),
                all == text_views(affected_players@),
                text_views(targets@) == common(all.subrange(0, i as int), self@.connections),
            decreases affected_players@.len() - i,
        {
            let ghost before = text_views(targets@);
            proof {
                assert(all.subrange(0, i + 1).drop_last() =~= all.subrange(0, i as int));
                assert(all.subrange(0, i + 1).last() == affected_players@[i as int]@);
            }
            if self.is_connected(affected_players[i].as_str()) {
                targets.push(affected_players[i].clone());
                assert(text_views(targets@) =~= before.push(affected_players@[i as int]@));
            }
            i += 1;
        }
        assert(all.subrange(0, all.len() as int) =~= all);
        targets
    }

    /// The channels that this instance has to listen on: for each match
    /// that a client follows its channel, once, and for each connected
    /// user the channel of the user.
    pub fn channels(&self) -> (channels: Vec<String>)
        ensures
            forall|c: Seq<char>|
                #![trigger holds(text_views(channels@), c)]
                holds(text_views(channels@), c) <==> self@.listens_on(c),
            distinct(text_views(channels@)),
    {
        let games = self.followed();
        let ghost names = text_views(games@);
        let mut channels: Vec<String> = Vec::new();
        let mut i: usize = 0;
        while i < games.len()
            invariant
                i <= games@.len(),
                names == text_views(games@),
                distinct(text_views(channels@)),
                forall|c: Seq<char>|
                    #![trigger holds(text_views(channels@), c)]
                    holds(text_views(channels@), c) <==> exists|k: int|
                        0 <= k < i && c == match_channel(#[trigger] names[k]),
            decreases games@.len() - i,
        {
            let channel = PubSubRepository::game_channel(games[i].as_str());
            let ghost before = text_views(channels@);
            let ghost added = channel@;
            assert(added == match_channel(names[i as int]));
            let known = list_holds(&channels, channel.as_str());
            if !known {
                channels.push(channel);
                assert(text_views(channels@) =~= before.push(added));
                assert forall|x: int, y: int|
                    0 <= x < y < before.push(added).len() implies #[trigger] before.push(added)[x]
                    != #[trigger] before.push(added)[y] by {
                    if y == before.len() {
                        assert(before[x] == before.push(added)[x]);
                    }
                }
            }
            proof {
                let now = text_views(channels@);
                assert forall|c: Seq<char>| #![trigger holds(now, c)] holds(now, c) <==> exists|
                    k: int,
                |
                    0 <= k < i + 1 && c == match_channel(#[trigger] names[k]) by {
                    if holds(now, c) {
                        let j = choose|j: int| 0 <= j < now.len() && #[trigger] now[j] == c;
                        if j < before.len() {
                            assert(before[j] == c);
                            assert(holds(before, c));
                        } else {
                            assert(c == added);
                        }
                    }
                    if exists|k: int| 0 <= k < i + 1 && c == match_channel(#[trigger] names[k]) {
                        let k = choose|k: int|
                            0 <= k < i + 1 && c == match_channel(#[trigger] names[k]);
                        if k < i {
                            assert(holds(before, c));
                            let j = choose|j: int| 0 <= j < before.len() && #[trigger] before[j] == c;
                            assert(now[j] == c);
                        } else if known {
                            let j = choose|j: int| 0 <= j < before.len() && #[trigger] before[j] == c;
                            assert(now[j] == c);
                        } else {
                            assert(now[before.len() as int] == c);
                        }
                    }
                }
            }
            i += 1;
        }
        let ghost matches_part = text_views(channels@);
        proof {
            assert forall|c: Seq<char>| #![trigger holds(matches_part, c)] holds(matches_part, c)
                <==> exists|game: Seq<char>| #[trigger]
                self@.interested_in(game) && c == match_channel(game) by {
                if holds(matches_part, c) {
                    let k = choose|k: int|
                        0 <= k < names.len() && c == match_channel(#[trigger] names[k]);
                    assert(holds(names, names[k]));
                    assert(self@.interested_in(names[k]));
                }
                if exists|game: Seq<char>| #[trigger]
                    self@.interested_in(game) && c == match_channel(game) {
                    let game = choose|game: Seq<char>| #[trigger]
                        self@.interested_in(game) && c == match_channel(game);
                    assert(holds(names, game));
                    let k = choose|k: int| 0 <= k < names.len() && #[trigger] names[k] == game;
                    assert(c == match_channel(names[k]));
                }
            }
        }
        let mut u: usize = 0;
        while u < self.connections.len()
            invariant
                u <= self.connections@.len(),
                distinct(text_views(channels@)),
                forall|c: Seq<char>|
                    #![trigger holds(matches_part, c)]
                    holds(matches_part, c) <==> exists|game: Seq<char>| #[trigger]
                        self@.interested_in(game) && c == match_channel(game),
                forall|c: Seq<char>|
                    #![trigger holds(text_views(channels@), c)]
                    holds(text_views(channels@), c) <==> holds(matches_part, c) || exists|k: int|
                        0 <= k < u && c == user_channel(#[trigger] self@.connections[k]),
            decreases self.connections@.len() - u,
        {
            let channel = PubSubRepository::player_channel(self.connections[u].as_str());
            let ghost before = text_views(channels@);
            let ghost added = channel@;
            assert(added == user_channel(self@.connections[u as int]));
            let known = list_holds(&channels, channel.as_str());
            if !known {
                channels.push(channel);
                assert(text_views(channels@) =~= before.push(added));
                assert forall|x: int, y: int|
                    0 <= x < y < before.push(added).len() implies #[trigger] before.push(added)[x]
                    != #[trigger] before.push(added)[y] by {
                    if y == before.len() {
                        assert(before[x] == before.push(added)[x]);
                    }
                }
            }
            proof {
                let now = text_views(channels@);
                assert forall|c: Seq<char>| #![trigger holds(now, c)] holds(now, c) <==> holds(
                    matches_part,
                    c,
                ) || exists|k: int|
                    0 <= k < u + 1 && c == user_channel(#[trigger] self@.connections[k]) by {
                    if holds(now, c) {
                        let j = choose|j: int| 0 <= j < now.len() && #[trigger] now[j] == c;
                        if j < before.len() {
                            assert(before[j] == c);
                            assert(holds(before, c));
                        } else {
                            assert(c == added);
                        }
                    }
                    if holds(matches_part, c) || exists|k: int|
                        0 <= k < u + 1 && c == user_channel(#[trigger] self@.connections[k]) {
                        if holds(before, c) {
                            let j = choose|j: int| 0 <= j < before.len() && #[trigger] before[j] == c;
                            assert(now[j] == c);
                        } else {
                            assert(c == added);
                            assert(!known);
                            assert(now[before.len() as int] == c);
                        }
                    }
                }
            }
            u += 1;
        }
        channels
    }
}

/// Whether the instance has to subscribe anew: the channels to listen on
/// are not those of the running subscription.
pub fn subscription_changed(subscribed: &Vec<String>, wanted: &Vec<String>) -> (changed: bool)
    ensures
        changed == !(forall|c: Seq<char>|
            #![trigger holds(text_views(subscribed@), c)]
            #![trigger holds(text_views(wanted@), c)]
            holds(text_views(subscribed@), c) <==> holds(text_views(wanted@), c)),
{
    let mut i: usize = 0;
    while i < subscribed.len()
        invariant
            i <= subscribed@.len(),
            forall|k: int|
                0 <= k < i ==> holds(text_views(wanted@), #[trigger] text_views(subscribed@)[k]),
        decreases subscribed@.len() - i,
    {
        if !list_holds(wanted, subscribed[i].as_str()) {
            assert(holds(text_views(subscribed@), text_views(subscribed@)[i as int]));
            return true;
        }
        i += 1;
    }
    let mut j: usize = 0;
    while j < wanted.len()
        invariant
            j <= wanted@.len(),
            forall|k: int|
                0 <= k < subscribed@.len() ==> holds(
                    text_views(wanted@),
                    #[trigger] text_views(subscribed@)[k],
                ),
            forall|k: int|
                0 <= k < j ==> holds(text_views(subscribed@), #[trigger] text_views(wanted@)[k]),
        decreases wanted@.len() - j,
    {
        if !list_holds(subscribed, wanted[j].as_str()) {
            assert(holds(text_views(wanted@), text_views(wanted@)[j as int]));
            return true;
        }
        j += 1;
    }
    false
}

/// When the last local follower of a match disconnects, the instance
/// stops listening on the channel of the match, unless the channel is
/// also that of another match that is still followed.
pub proof fn lemma_last_follower_leaves(before: RegistryView, after: RegistryView, user: Seq<char>, game: Seq<char>)
    requires
        forall|g: Seq<char>, u: Seq<char>|
            #![trigger after.follows(g, u)]
            after.follows(g, u) <==> before.follows(g, u) && u != user,
        forall|u: Seq<char>| before.follows(game, u) ==> u == user,
    ensures
        !after.interested_in(game),
{
    if after.interested_in(game) {
        let first = after.followers(game)[0];
        assert(after.follows(game, first));
        assert(before.follows(game, first));
    }
}

} // verus!
