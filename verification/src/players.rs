//! The players of a match: who has joined, in what order, and who hosts.
//!
//! The order of joining gives the seats: the host sits at 0, the others at
//! 1, 2 and 3 as they came. A user is in the list at most once.

use crate::text::str_eq;
use vstd::prelude::*;
use vstd::string::*;

verus! {

/// A player of a match with the role.
#[derive(Debug)]
pub struct PlayerGameInfo {
    pub user_id: String,
    pub role: String,
}

/// A player as plain values.
pub struct PlayerView {
    pub user_id: Seq<char>,
    pub role: Seq<char>,
}

impl View for PlayerGameInfo {
    type V = PlayerView;

    open spec fn view(&self) -> PlayerView {
        PlayerView { user_id: self.user_id@, role: self.role@ }
    }
}

impl Clone for PlayerGameInfo {
    fn clone(&self) -> (copy: PlayerGameInfo)
        ensures
            copy@ == self@,
    {
        PlayerGameInfo { user_id: self.user_id.clone(), role: self.role.clone() }
    }
}

/// The players of a match in the order in which they joined.
#[derive(Debug)]
pub struct Roster {
    pub players: Vec<PlayerGameInfo>,
}

/// The views of a list of players.
pub open spec fn player_views(players: Seq<PlayerGameInfo>) -> Seq<PlayerView> {
    Seq::new(players.len(), |i: int| players[i]@)
}

impl View for Roster {
    type V = Seq<PlayerView>;

    open spec fn view(&self) -> Seq<PlayerView> {
        player_views(self.players@)
    }
}

/// The role of the user who created the match.
pub open spec fn host_role() -> Seq<char> {
    "host"@
}

/// The role of a user who joined the match.
pub open spec fn player_role() -> Seq<char> {
    "player"@
}

/// The seat of a user: the first place in the list with that user, or the
/// length of the list where the user is not in it.
pub open spec fn seat_of(players: Seq<PlayerView>, user: Seq<char>) -> int
    decreases players.len(),
{
    if players.len() == 0 {
        0
    } else if players[0].user_id == user {
        0
    } else {
        1 + seat_of(players.drop_first(), user)
    }
}

/// Whether a user is among the players.
pub open spec fn is_member(players: Seq<PlayerView>, user: Seq<char>) -> bool {
    exists|i: int| 0 <= i < players.len() && (#[trigger] players[i]).user_id == user
}

/// Whether a user hosts the match.
pub open spec fn is_host(players: Seq<PlayerView>, user: Seq<char>) -> bool {
    exists|i: int|
        0 <= i < players.len() && (#[trigger] players[i]).user_id == user && players[i].role
            == host_role()
}

/// Nobody is in the list twice.
pub open spec fn distinct_users(players: Seq<PlayerView>) -> bool {
    forall|i: int, j: int|
        0 <= i < j < players.len() ==> (#[trigger] players[i]).user_id != (
        #[trigger] players[j]).user_id
}

/// The players after a user joined: a member stays where they are and
/// nothing changes; anybody else is added at the end as a player.
pub open spec fn after_join(players: Seq<PlayerView>, user: Seq<char>) -> Seq<PlayerView> {
    if is_member(players, user) {
        players
    } else {
        players.push(PlayerView { user_id: user, role: player_role() })
    }
}

/// The players after a user left: nobody is left where the host leaves,
/// for the match ends with that; any other member is taken out; where the
/// user is no member nothing changes.
pub open spec fn after_leave(players: Seq<PlayerView>, user: Seq<char>) -> Seq<PlayerView> {
    if is_host(players, user) {
        Seq::empty()
    } else if is_member(players, user) {
        players.remove(seat_of(players, user))
    } else {
        players
    }
}

/// The user ids of the players, in order.
pub open spec fn user_ids(players: Seq<PlayerView>) -> Seq<Seq<char>> {
    Seq::new(players.len(), |i: int| players[i].user_id)
}

/// The views of a list of texts.
pub open spec fn text_views(texts: Seq<String>) -> Seq<Seq<char>> {
    Seq::new(texts.len(), |i: int| texts[i]@)
}

/// The players that the store holds for a match: its entries in their
/// order, without the entry that names the host by the field `host`.
pub open spec fn stored_players(entries: Seq<(String, String)>) -> Seq<PlayerView>
    decreases entries.len(),
{
    if entries.len() == 0 {
        Seq::empty()
    } else if entries.last().0@ == host_role() {
        stored_players(entries.drop_last())
    } else {
        stored_players(entries.drop_last()).push(
            PlayerView { user_id: entries.last().0@, role: entries.last().1@ },
        )
    }
}

/// The players with the role of host, or those without it, in their
/// order.
pub open spec fn with_role(players: Seq<PlayerView>, hosts: bool) -> Seq<PlayerView>
    decreases players.len(),
{
    if players.len() == 0 {
        Seq::empty()
    } else if (players.last().role == host_role()) == hosts {
        with_role(players.drop_last(), hosts).push(players.last())
    } else {
        with_role(players.drop_last(), hosts)
    }
}

/// The players in the order of their seats: the host first, then the
/// others as the store lists them.
pub open spec fn seated(entries: Seq<(String, String)>) -> Seq<PlayerView> {
    with_role(stored_players(entries), true) + with_role(stored_players(entries), false)
}

/// The seat of a user lies within the list exactly when the user is a
/// member, and then the user is there and nowhere before.
pub proof fn lemma_seat_of(players: Seq<PlayerView>, user: Seq<char>)
    ensures
        0 <= seat_of(players, user) <= players.len(),
        seat_of(players, user) < players.len() <==> is_member(players, user),
        seat_of(players, user) < players.len() ==> players[seat_of(players, user)].user_id == user,
        forall|i: int| 0 <= i < seat_of(players, user) ==> (#[trigger] players[i]).user_id != user,
    decreases players.len(),
{
    if players.len() > 0 {
        if players[0].user_id == user {
        } else {
            let rest = players.drop_first();
            lemma_seat_of(rest, user);
            let k = seat_of(rest, user);
            if k < rest.len() {
                assert(players[k + 1] == rest[k]);
            }
            if is_member(players, user) {
                let j = choose|j: int| 0 <= j < players.len() && (#[trigger] players[j]).user_id == user;
                assert(rest[j - 1] == players[j]);
            }
            assert forall|i: int| 0 <= i < k + 1 implies (#[trigger] players[i]).user_id != user by {
                if i > 0 {
                    assert(players[i] == rest[i - 1]);
                }
            }
        }
    }
}

/// Joining and leaving again gives back the players that were there: for
/// a user who was not among them.
pub proof fn lemma_join_then_leave(players: Seq<PlayerView>, user: Seq<char>)
    requires
        !is_member(players, user),
    ensures
        after_leave(after_join(players, user), user) == players,
{
    reveal_strlit("host");
    reveal_strlit("player");
    let joined = after_join(players, user);
    assert(joined[players.len() as int].user_id == user);
    assert(is_member(joined, user));
    assert(!is_host(joined, user)) by {
        if is_host(joined, user) {
            let i = choose|i: int|
                0 <= i < joined.len() && (#[trigger] joined[i]).user_id == user && joined[i].role
                    == host_role();
            if i < players.len() {
                assert(players[i] == joined[i]);
            } else {
                assert("host"@.len() != "player"@.len());
            }
        }
    }
    lemma_seat_of(joined, user);
    let k = seat_of(joined, user);
    if k < players.len() {
        assert(players[k] == joined[k]);
    }
    assert(joined.remove(k) =~= players);
}

/// Joining twice is joining once.
pub proof fn lemma_second_join_is_no_op(players: Seq<PlayerView>, user: Seq<char>)
    ensures
        after_join(after_join(players, user), user) == after_join(players, user),
{
    let joined = after_join(players, user);
    if !is_member(players, user) {
        assert(joined[players.len() as int].user_id == user);
    }
}

/// Joining keeps the list free of doubles.
pub proof fn lemma_join_keeps_distinct(players: Seq<PlayerView>, user: Seq<char>)
    requires
        distinct_users(players),
    ensures
        distinct_users(after_join(players, user)),
{
    let joined = after_join(players, user);
    if !is_member(players, user) {
        assert forall|i: int, j: int| 0 <= i < j < joined.len() implies (
        #[trigger] joined[i]).user_id != (#[trigger] joined[j]).user_id by {
            assert(joined[i] == players[i]);
            if j < players.len() {
                assert(joined[j] == players[j]);
            }
        }
    }
}

impl Roster {
    /// The players of a new match: the host alone.
    pub fn with_host(host_id: String) -> (roster: Roster)
        ensures
            roster@ == seq![PlayerView { user_id: host_id@, role: host_role() }],
    {
        let mut players: Vec<PlayerGameInfo> = Vec::new();
        players.push(PlayerGameInfo { user_id: host_id, role: String::from_str("host") });
        let roster = Roster { players };
        assert(roster@ =~= seq![PlayerView { user_id: host_id@, role: host_role() }]);
        roster
    }

    /// The players of a match from the entries that the store holds for
    /// it: the host takes seat 0, the others follow in the order of the
    /// entries. The entry that names the host by the field `host` is no
    /// player.
    pub fn from_store(entries: &Vec<(String, String)>) -> (roster: Roster)
        ensures
            roster@ == seated(entries@),
    {
        let mut hosts: Vec<PlayerGameInfo> = Vec::new();
        let mut others: Vec<PlayerGameInfo> = Vec::new();
        let ghost mut kept: Seq<PlayerView> = Seq::empty();
        let mut i: usize = 0;
        assert(entries@.subrange(0, 0) =~= Seq::<(String, String)>::empty());
        assert(player_views(hosts@) =~= Seq::<PlayerView>::empty());
        assert(player_views(others@) =~= Seq::<PlayerView>::empty());
        while i < entries.len()
            invariant
                i <= entries@.len(),
                kept == stored_players(entries@.subrange(0, i as int)),
                player_views(hosts@) == with_role(kept, true),
                player_views(others@) == with_role(kept, false),
            decreases entries@.len() - i,
        {
            proof {
                assert(entries@.subrange(0, i + 1).drop_last() =~= entries@.subrange(0, i as int));
                assert(entries@.subrange(0, i + 1).last() == entries@[i as int]);
            }
            if !str_eq(entries[i].0.as_str(), "host") {
                let player = PlayerGameInfo {
                    user_id: entries[i].0.clone(),
                    role: entries[i].1.clone(),
                };
                let ghost view = player@;
                let ghost before_hosts = player_views(hosts@);
                let ghost before_others = player_views(others@);
                proof {
                    assert(kept.push(view).drop_last() =~= kept);
                }
                if str_eq(player.role.as_str(), "host") {
                    hosts.push(player);
                    assert(player_views(hosts@) =~= before_hosts.push(view));
                } else {
                    others.push(player);
                    assert(player_views(others@) =~= before_others.push(view));
                }
                proof {
                    kept = kept.push(view);
                }
            }
            i += 1;
        }
        assert(entries@.subrange(0, entries@.len() as int) =~= entries@);
        let ghost first = player_views(hosts@);
        let ghost second = player_views(others@);
        hosts.append(&mut others);
        let roster = Roster { players: hosts };
        assert(roster@ =~= first + second);
        roster
    }

    /// How many players there are.
    pub fn len(&self) -> (n: usize)
        ensures
            n == self@.len(),
    {
        self.players.len()
    }

    /// The seat of a user, by the order of joining.
    pub fn position_of(&self, user_id: &str) -> (seat: Option<usize>)
        ensures
            seat is Some <==> is_member(self@, user_id@),
            seat matches Some(s) ==> s == seat_of(self@, user_id@) && s < self@.len(),
    {
        proof {
            lemma_seat_of(self@, user_id@);
        }
        let mut i: usize = 0;
        while i < self.players.len()
            invariant
                i <= self.players@.len(),
                forall|k: int| 0 <= k < i ==> (#[trigger] self@[k]).user_id != user_id@,
            decreases self.players@.len() - i,
        {
            if str_eq(self.players[i].user_id.as_str(), user_id) {
                proof {
                    lemma_seat_of(self@, user_id@);
                    assert(self@[i as int].user_id == user_id@);
                }
                return Some(i);
            }
            i += 1;
        }
        None
    }

    /// Whether the user hosts the match.
    pub fn is_host(&self, user_id: &str) -> (hosts: bool)
        ensures
            hosts == is_host(self@, user_id@),
    {
        let mut i: usize = 0;
        while i < self.players.len()
            invariant
                i <= self.players@.len(),
                forall|k: int|
                    0 <= k < i ==> !((#[trigger] self@[k]).user_id == user_id@ && self@[k].role
                        == host_role()),
            decreases self.players@.len() - i,
        {
            if str_eq(self.players[i].user_id.as_str(), user_id) && str_eq(
                self.players[i].role.as_str(),
                "host",
            ) {
                assert(self@[i as int].user_id == user_id@ && self@[i as int].role == host_role());
                return true;
            }
            i += 1;
        }
        false
    }

    /// The user ids of the players, in the order of their seats.
    pub fn user_ids(&self) -> (ids: Vec<String>)
        ensures
            text_views(ids@) == user_ids(self@),
    {
        let mut ids: Vec<String> = Vec::new();
        let mut i: usize = 0;
        while i < self.players.len()
            invariant
                i <= self.players@.len(),
                ids@.len() == i,
                forall|k: int| 0 <= k < i ==> (#[trigger] ids@[k])@ == self@[k].user_id,
            decreases self.players@.len() - i,
        {
            ids.push(self.players[i].user_id.clone());
            i += 1;
        }
        assert(text_views(ids@) =~= user_ids(self@));
        ids
    }

    /// Adds a user as a player. A user who is in the list already stays
    /// as they are. Says whether the list has grown.
    pub fn join(&mut self, user_id: &str) -> (added: bool)
        ensures
            final(self)@ == after_join(old(self)@, user_id@),
            added == !is_member(old(self)@, user_id@),
    {
        match self.position_of(user_id) {
            Some(_) => false,
            None => {
                let ghost before = self@;
                self.players.push(
                    PlayerGameInfo {
                        user_id: String::from_str(user_id),
                        role: String::from_str("player"),
                    },
                );
                assert(self@ =~= before.push(
                    PlayerView { user_id: user_id@, role: player_role() },
                ));
                true
            },
        }
    }

    /// Takes a user out. With the host everybody goes, for the match ends;
    /// a user who is no member changes nothing.
    pub fn leave(&mut self, user_id: &str)
        ensures
            final(self)@ == after_leave(old(self)@, user_id@),
    {
        if self.is_host(user_id) {
            self.players.clear();
            assert(self@ =~= Seq::<PlayerView>::empty());
        } else {
            match self.position_of(user_id) {
                Some(seat) => {
                    let ghost before = self@;
                    self.players.remove(seat);
                    assert(self@ =~= before.remove(seat as int));
                },
                None => {},
            }
        }
    }
}

} // verus!
