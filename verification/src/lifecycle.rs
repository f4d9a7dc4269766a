//! The commands that open and close a match: create, join, leave, start.

use crate::card::Card;
use crate::commands::{
    announcement_views, Announcement, AnnouncementView, EventKind, StoreStep,
};
use crate::deck::{fresh_deck, is_deal_of, some_hand_can_bid, Deck};
use crate::errors::{plain_error, CommandError, ErrorKind, ErrorView};
use crate::normal_match::{next_seat, MatchView, NormalMatch, NormalMatchStatus};
use crate::players::{
    after_join, after_leave, host_role, is_host, is_member, text_views, user_ids, PlayerView, Roster,
};
use crate::schemas::{
    info_views, CreateMatchResponse, GameStartState, JoinMatchResponse, LeaveMatchResponse,
    MatchState, PlayerInfo, StartGameResponse,
};
use crate::text::{decimal, format_u64, str_eq};
use rand::Rng;
use vstd::prelude::*;
use vstd::string::*;

verus! {

/// The least pin.
pub const PIN_MIN: u32 = 1000;

/// The greatest pin.
pub const PIN_MAX: u32 = 9999;

/// How many crosses a match is played for unless told otherwise.
pub const DEFAULT_NUMBER_OF_CROSSES: u32 = 3;

/// How many players a game takes.
pub const PLAYERS_PER_GAME: usize = 4;

/// What creating a match has brought.
#[derive(Debug)]
pub struct CreateOutcome {
    /// The new match.
    pub game: NormalMatch,
    /// Its players: the host.
    pub roster: Roster,
    /// The writes to the store, in order.
    pub plan: Vec<StoreStep>,
    /// The answer to the host.
    pub response: CreateMatchResponse,
}

/// What joining a match has brought.
#[derive(Debug)]
pub struct JoinOutcome {
    /// The players after the join.
    pub roster: Roster,
    /// Whether the user was added; not so where the user was in the match
    /// already.
    pub added: bool,
    /// The writes to the store, in order.
    pub plan: Vec<StoreStep>,
    /// The events to publish, in order.
    pub events: Vec<Announcement>,
    /// The answer to the user.
    pub response: JoinMatchResponse,
}

/// What leaving a match has brought.
#[derive(Debug)]
pub struct LeaveOutcome {
    /// The record of the match, called off, where the leave ends the
    /// match and the record was at hand.
    pub game: Option<NormalMatch>,
    /// The players after the leave.
    pub roster: Roster,
    /// Whether the match is gone.
    pub game_deleted: bool,
    /// The users whose membership ends.
    pub released: Vec<String>,
    /// The writes to the store, in order.
    pub plan: Vec<StoreStep>,
    /// The events to publish, in order.
    pub events: Vec<Announcement>,
    /// The answer to the user.
    pub response: LeaveMatchResponse,
}

/// What starting a game has brought.
#[derive(Debug)]
pub struct StartOutcome {
    /// The match, in bidding.
    pub game: NormalMatch,
    /// The seat of the dealer.
    pub dealer: usize,
    /// The four hands, by seat.
    pub hands: [Vec<Card>; 4],
    /// The writes to the store, in order.
    pub plan: Vec<StoreStep>,
    /// The events to publish, in order: the start of the game for all,
    /// then to each player their own hand.
    pub events: Vec<Announcement>,
    /// The answer to the host.
    pub response: StartGameResponse,
}

/// A text that may be missing, borrowed.
pub open spec fn opt_str(text: Option<&str>) -> Option<Seq<char>> {
    match text {
        Some(s) => Some(s@),
        None => None,
    }
}

/// A hexadecimal digit.
pub open spec fn hex_digit(d: nat) -> char
    recommends
        d < 16,
{
    if d < 10 {
        crate::text::digit_char(d)
    } else if d == 10 {
        'a'
    } else if d == 11 {
        'b'
    } else if d == 12 {
        'c'
    } else if d == 13 {
        'd'
    } else if d == 14 {
        'e'
    } else {
        'f'
    }
}

/// A number written in hexadecimal, in lower case and without leading
/// zeros.
pub open spec fn hexadecimal(n: nat) -> Seq<char>
    decreases n,
{
    if n < 16 {
        seq![hex_digit(n)]
    } else {
        hexadecimal(n / 16).push(hex_digit(n % 16))
    }
}

/// The identifier of a match: `game_`, the time of creation in seconds,
/// `_`, and a suffix in hexadecimal.
pub open spec fn match_id_text(seconds: u64, suffix: u16) -> Seq<char> {
    "game_"@ + decimal(seconds as nat) + "_"@ + hexadecimal(suffix as nat)
}

/// The one-character text of a hexadecimal digit.
fn hex_digit_str(d: u64) -> (s: &'static str)
    requires
        d < 16,
    ensures
        s@ == seq![hex_digit(d as nat)],
{
    proof {
        reveal_strlit("0");
        reveal_strlit("1");
        reveal_strlit("2");
        reveal_strlit("3");
        reveal_strlit("4");
        reveal_strlit("5");
        reveal_strlit("6");
        reveal_strlit("7");
        reveal_strlit("8");
        reveal_strlit("9");
        reveal_strlit("a");
        reveal_strlit("b");
        reveal_strlit("c");
        reveal_strlit("d");
        reveal_strlit("e");
        reveal_strlit("f");
    }
    let s = if d == 0 {
        "0"
    } else if d == 1 {
        "1"
    } else if d == 2 {
        "2"
    } else if d == 3 {
        "3"
    } else if d == 4 {
        "4"
    } else if d == 5 {
        "5"
    } else if d == 6 {
        "6"
    } else if d == 7 {
        "7"
    } else if d == 8 {
        "8"
    } else if d == 9 {
        "9"
    } else if d == 10 {
        "a"
    } else if d == 11 {
        "b"
    } else if d == 12 {
        "c"
    } else if d == 13 {
        "d"
    } else if d == 14 {
        "e"
    } else {
        "f"
    };
    assert(s@ =~= seq![hex_digit(d as nat)]);
    s
}

/// Writes a number in hexadecimal.
pub fn format_hex(n: u64) -> (s: String)
    ensures
        s@ == hexadecimal(n as nat),
    decreases n,
{
    if n < 16 {
        String::from_str(hex_digit_str(n))
    } else {
        let mut s = format_hex(n / 16);
        s.append(hex_digit_str(n % 16));
        assert(s@ =~= hexadecimal(n as nat));
        s
    }
}

/// Builds the identifier of a match.
pub fn new_match_id(seconds: u64, suffix: u16) -> (id: String)
    ensures
        id@ == match_id_text(seconds, suffix),
{
    let mut id = String::from_str("game_");
    let time = format_u64(seconds);
    id.append(time.as_str());
    id.append("_");
    let tail = format_hex(suffix as u64);
    id.append(tail.as_str());
    id
}

/// A number below `n` that chance picks.
///
/// Calls `gen_range(0..n)` of `rand::Rng` on the thread's generator, which
/// yields a value of the half-open range and panics where the range is
/// empty.
#[verifier::external_body]
fn random_below(n: usize) -> (r: usize)
    requires
        n > 0,
    ensures
        r < n,
{
    rand::thread_rng().gen_range(0..n)
}

/// A number from `low` to `high` that chance picks.
///
/// Calls `gen_range(low..=high)` of `rand::Rng` on the thread's
/// generator, which yields a value of the closed range and panics where
/// the range is empty.
#[verifier::external_body]
fn random_between(low: u32, high: u32) -> (r: u32)
    requires
        low <= high,
    ensures
        low <= r <= high,
{
    rand::thread_rng().gen_range(low..=high)
}

/// Sixteen bits that chance picks.
///
/// Calls `rand::random::<u16>()`. Nothing is said of the value.
#[verifier::external_body]
fn random_suffix() -> u16 {
    rand::random::<u16>()
}

/// The time in whole seconds since the start of 1970.
///
/// Calls `chrono::Utc::now().timestamp()`. The clock decides the value, so
/// nothing is said of it, not even its sign.
#[verifier::external_body]
fn now_seconds() -> i64 {
    chrono::Utc::now().timestamp()
}

/// How many pins are proposed for one new match at most.
pub const MAX_PIN_ATTEMPTS: usize = 20;

/// Whether another pin is proposed after a refusal: only where the pin
/// was in use, and only while fewer than [`MAX_PIN_ATTEMPTS`] were made.
pub open spec fn tries_another_pin(error: ErrorView, attempts_made: usize) -> bool {
    error == plain_error(ErrorKind::Conflict, "Pin in use"@) && attempts_made < MAX_PIN_ATTEMPTS
}

/// Decides what follows when creating a match was refused: another pin is
/// tried where this one was in use and the attempts are not used up; any
/// other refusal, and the last of the attempts, ends the command with the
/// refusal.
pub fn after_pin_refusal(error: &CommandError, attempts_made: usize) -> (again: bool)
    ensures
        again == tries_another_pin(error@, attempts_made),
{
    let conflict = match error.kind {
        ErrorKind::Conflict => true,
        _ => false,
    };
    conflict && error.message.is_none() && str_eq(error.error.as_str(), "Pin in use")
        && attempts_made < MAX_PIN_ATTEMPTS
}

/// Proposes a pin of four digits for a new match. The caller tries
/// another where the pin is in use.
pub fn propose_pin() -> (pin: u32)
    ensures
        PIN_MIN <= pin <= PIN_MAX,
{
    random_between(PIN_MIN, PIN_MAX)
}

/// Proposes an identifier for a new match, made of the time in seconds
/// and of a random suffix. The time is taken as it comes where it is not
/// negative; the type of the clock's answer also holds negative numbers,
/// and such an answer counts as 0.
pub fn propose_match_id() -> (id: String)
    ensures
        exists|seconds: u64, suffix: u16| id@ == #[trigger] match_id_text(seconds, suffix),
{
    let now = now_seconds();
    let seconds: u64 = if now < 0 {
        0
    } else {
        now as u64
    };
    let suffix = random_suffix();
    let id = new_match_id(seconds, suffix);
    assert(id@ == match_id_text(seconds, suffix));
    id
}

/// Why creating a match is refused, if it is: the user is in a match
/// already; the pin has not four digits; the pin is in use.
pub open spec fn create_refusal(current_match: Option<Seq<char>>, pin: u32, pin_in_use: bool) -> Option<
    ErrorView,
> {
    if current_match is Some {
        Some(plain_error(ErrorKind::Conflict, "Already in game"@))
    } else if pin < PIN_MIN || pin > PIN_MAX {
        Some(plain_error(ErrorKind::Fatal, "Pin must have four digits"@))
    } else if pin_in_use {
        Some(plain_error(ErrorKind::Conflict, "Pin in use"@))
    } else {
        None
    }
}

/// The writes that create a match: the record, the host among the
/// players, the host's way back to the match, and last the pin, by which
/// others find the match.
pub open spec fn create_plan() -> Seq<StoreStep> {
    seq![
        StoreStep::WriteMatch,
        StoreStep::WritePlayer,
        StoreStep::WriteBackReference,
        StoreStep::WritePinIndex,
    ]
}

/// Creates a match for a user, who becomes its host.
///
/// Refused where the user is in a match already, and where the pin has
/// not four digits or is in use. The new match waits for players. No
/// event is published, for nobody listens yet.
pub fn create_match(
    user_id: &str,
    current_match: Option<&str>,
    match_id: String,
    pin: u32,
    pin_in_use: bool,
    created_timestamp: u64,
) -> (res: Result<CreateOutcome, CommandError>)
    ensures
        res is Err <==> create_refusal(opt_str(current_match), pin, pin_in_use) is Some,
        res matches Err(e) ==> Some(e@) == create_refusal(opt_str(current_match), pin, pin_in_use),
        res matches Ok(outcome) ==> {
            &&& outcome.game@ == MatchView::created(
                match_id@,
                pin,
                DEFAULT_NUMBER_OF_CROSSES,
                created_timestamp,
            )
            &&& outcome.roster@ == seq![PlayerView { user_id: user_id@, role: host_role() }]
            &&& outcome.plan@ == create_plan()
            &&& outcome.response.message@ == "Game created and verified"@
            &&& outcome.response.game_id@ == match_id@
            &&& outcome.response.game_pin == pin
            &&& outcome.response.state.shows(outcome.game@, user_id@)
        },
{
    if current_match.is_some() {
        return Err(CommandError::new(ErrorKind::Conflict, "Already in game"));
    }
    if pin < PIN_MIN || pin > PIN_MAX {
        return Err(CommandError::new(ErrorKind::Fatal, "Pin must have four digits"));
    }
    if pin_in_use {
        return Err(CommandError::new(ErrorKind::Conflict, "Pin in use"));
    }
    let game = NormalMatch::created_at(match_id, pin, DEFAULT_NUMBER_OF_CROSSES, created_timestamp);
    let roster = Roster::with_host(String::from_str(user_id));
    let mut plan: Vec<StoreStep> = Vec::new();
    plan.push(StoreStep::WriteMatch);
    plan.push(StoreStep::WritePlayer);
    plan.push(StoreStep::WriteBackReference);
    plan.push(StoreStep::WritePinIndex);
    assert(plan@ =~= create_plan());
    let response = CreateMatchResponse {
        message: String::from_str("Game created and verified"),
        game_id: game.id.clone(),
        game_pin: pin,
        state: MatchState::of(&game, String::from_str(user_id)),
    };
    Ok(CreateOutcome { game, roster, plan, response })
}

/// Why joining is refused, if it is. In this order: the user is in
/// another match; no match has the pin; the match of the pin is unknown;
/// the match is not waiting for players.
pub open spec fn join_refusal(
    current_match: Option<Seq<char>>,
    target: Option<Seq<char>>,
    game: Option<MatchView>,
) -> Option<ErrorView> {
    if target is None {
        if current_match is Some {
            Some(plain_error(ErrorKind::Conflict, "Already in game"@))
        } else {
            Some(plain_error(ErrorKind::NotFound, "Invalid pin"@))
        }
    } else if current_match is Some && current_match != target {
        Some(plain_error(ErrorKind::Conflict, "Already in game"@))
    } else if game is None {
        Some(plain_error(ErrorKind::NotFound, "Game not found"@))
    } else if game->0.status != NormalMatchStatus::Waiting {
        Some(plain_error(ErrorKind::Conflict, "Game not joinable"@))
    } else {
        None
    }
}

/// The writes of a join: first the user among the players, then the
/// user's way back to the match. A user who is in the match already
/// writes nothing.
pub open spec fn join_plan(added: bool) -> Seq<StoreStep> {
    if added {
        seq![StoreStep::WritePlayer, StoreStep::WriteBackReference]
    } else {
        Seq::empty()
    }
}

/// The events of a join: the players are told of the newcomer, unless the
/// user was in the match already.
pub open spec fn join_events(game: MatchView, players_after: Seq<PlayerView>, added: bool) -> Seq<
    AnnouncementView,
> {
    if added {
        seq![
            AnnouncementView {
                kind: EventKind::PlayerJoined,
                game_id: game.id,
                affected_players: user_ids(players_after),
                message: "Player joined the game"@,
            },
        ]
    } else {
        Seq::empty()
    }
}

/// Lets a user join the match that a pin leads to.
///
/// Refused where the user is in another match, where the pin leads to no
/// match, and where the match is not waiting for players. A user who is
/// in the match already stays as they are: nothing is written and nobody
/// is told.
pub fn join_match(
    user_id: &str,
    current_match: Option<&str>,
    target: Option<&str>,
    game: Option<&NormalMatch>,
    roster: Roster,
    host_id: &str,
) -> (res: Result<JoinOutcome, CommandError>)
    ensures
        res is Err <==> join_refusal(opt_str(current_match), opt_str(target), match game {
            Some(g) => Some(g@),
            None => None,
        }) is Some,
        res matches Err(e) ==> Some(e@) == join_refusal(
            opt_str(current_match),
            opt_str(target),
            match game {
                Some(g) => Some(g@),
                None => None,
            },
        ),
        res matches Ok(outcome) ==> {
            &&& outcome.roster@ == after_join(roster@, user_id@)
            &&& outcome.added == !is_member(roster@, user_id@)
            &&& outcome.plan@ == join_plan(outcome.added)
            &&& announcement_views(outcome.events@) == join_events(
                game->0@,
                outcome.roster@,
                outcome.added,
            )
            &&& outcome.response.message@ == "Joined game successfully"@
            &&& outcome.response.game_id@ == game->0@.id
            &&& outcome.response.state.shows(game->0@, host_id@)
            &&& info_views(outcome.response.players@) == outcome.roster@
        },
{
    let target = match target {
        Some(t) => t,
        None => {
            if current_match.is_some() {
                return Err(CommandError::new(ErrorKind::Conflict, "Already in game"));
            }
            return Err(CommandError::new(ErrorKind::NotFound, "Invalid pin"));
        },
    };
    match current_match {
        Some(current) => {
            if !str_eq(current, target) {
                return Err(CommandError::new(ErrorKind::Conflict, "Already in game"));
            }
        },
        None => {},
    }
    let game = match game {
        Some(g) => g,
        None => {
            return Err(CommandError::new(ErrorKind::NotFound, "Game not found"));
        },
    };
    if game.status != NormalMatchStatus::Waiting {
        return Err(CommandError::new(ErrorKind::Conflict, "Game not joinable"));
    }
    let mut roster = roster;
    let added = roster.join(user_id);
    let mut plan: Vec<StoreStep> = Vec::new();
    let mut events: Vec<Announcement> = Vec::new();
    if added {
        plan.push(StoreStep::WritePlayer);
        plan.push(StoreStep::WriteBackReference);
        events.push(
            Announcement::new(
                EventKind::PlayerJoined,
                game.id.as_str(),
                roster.user_ids(),
                "Player joined the game",
            ),
        );
    }
    assert(plan@ =~= join_plan(added));
    assert(announcement_views(events@) =~= join_events(game@, roster@, added));
    let response = JoinMatchResponse {
        message: String::from_str("Joined game successfully"),
        game_id: game.id.clone(),
        state: MatchState::of(game, String::from_str(host_id)),
        players: PlayerInfo::list_of(&roster),
    };
    Ok(JoinOutcome { roster, added, plan, events, response })
}

/// Whether leaving ends the match: the host leaves, or the last player.
pub open spec fn leave_ends_match(players: Seq<PlayerView>, user: Seq<char>) -> bool {
    is_host(players, user) || after_leave(players, user).len() == 0
}

/// Why leaving is refused, if it is: the user is in no match; the user is
/// not among the players of the match.
pub open spec fn leave_refusal(
    current_match: Option<Seq<char>>,
    players: Seq<PlayerView>,
    user: Seq<char>,
) -> Option<ErrorView> {
    if current_match is None {
        Some(plain_error(ErrorKind::NotFound, "You are not in any game"@))
    } else if !is_member(players, user) {
        Some(plain_error(ErrorKind::NotFound, "Game not found"@))
    } else {
        None
    }
}

/// The writes of a leave. Where the match ends, the pin goes first, so
/// that nobody finds the match any more; then the players lose their way
/// back, and the keys of the match are deleted. Else the user leaves the
/// players and loses the way back.
pub open spec fn leave_plan(ends_match: bool) -> Seq<StoreStep> {
    if ends_match {
        seq![StoreStep::RemovePinIndex, StoreStep::ClearBackReferences, StoreStep::DeleteMatchKeys]
    } else {
        seq![StoreStep::RemovePlayer, StoreStep::RemoveBackReference]
    }
}

/// The event of a leave: all members are told that the match is over
/// where it ends, else the remaining players and the one who left are
/// told of the leave.
pub open spec fn leave_event(game_id: Seq<char>, players: Seq<PlayerView>, ends_match: bool) -> AnnouncementView {
    if ends_match {
        AnnouncementView {
            kind: EventKind::GameTerminated,
            game_id,
            affected_players: user_ids(players),
            message: "Game terminated because host left"@,
        }
    } else {
        AnnouncementView {
            kind: EventKind::PlayerLeft,
            game_id,
            affected_players: user_ids(players),
            message: "Player left the game"@,
        }
    }
}

/// Lets a user leave their match.
///
/// Refused where the user is in no match. Where the host leaves, the
/// match is called off: its record is marked so, all players are released,
/// everything of the match is deleted, and all members are told. Any other player is taken out
/// and the others are told; the match also goes where nobody is left.
pub fn leave_match(user_id: &str, current_match: Option<&str>, game: Option<NormalMatch>, roster: Roster) -> (res:
    Result<LeaveOutcome, CommandError>)
    ensures
        res is Err <==> leave_refusal(opt_str(current_match), roster@, user_id@) is Some,
        res matches Err(e) ==> Some(e@) == leave_refusal(opt_str(current_match), roster@, user_id@),
        res matches Ok(outcome) ==> {
            let ends = leave_ends_match(roster@, user_id@);
            &&& outcome.game_deleted == ends
            &&& crate::bidding::opt_match(outcome.game) == (match game {
                Some(g) => if ends {
                    Some(g@.after_cancel())
                } else {
                    None
                },
                None => None,
            })
            &&& outcome.roster@ == (if ends {
                Seq::<PlayerView>::empty()
            } else {
                after_leave(roster@, user_id@)
            })
            &&& text_views(outcome.released@) == (if ends {
                user_ids(roster@)
            } else {
                seq![user_id@]
            })
            &&& outcome.plan@ == leave_plan(ends)
            &&& announcement_views(outcome.events@) == seq![
                leave_event(current_match->0@, roster@, ends),
            ]
            &&& outcome.response.game_deleted == ends
            &&& outcome.response.message@ == (if ends {
                "You have left the game and it has been terminated"@
            } else {
                "You have left the game"@
            })
            &&& text_views(outcome.response.affected_players@) == text_views(outcome.released@)
        },
{
    let game_id = match current_match {
        Some(id) => id,
        None => {
            return Err(CommandError::new(ErrorKind::NotFound, "You are not in any game"));
        },
    };
    if roster.position_of(user_id).is_none() {
        return Err(CommandError::new(ErrorKind::NotFound, "Game not found"));
    }
    let everybody = roster.user_ids();
    let hosts = roster.is_host(user_id);
    let ghost before = roster@;
    let mut roster = roster;
    roster.leave(user_id);
    let ends = hosts || roster.len() == 0;
    let mut plan: Vec<StoreStep> = Vec::new();
    let mut events: Vec<Announcement> = Vec::new();
    let mut released: Vec<String> = Vec::new();
    let mut cancelled: Option<NormalMatch> = None;
    if ends {
        match game {
            Some(g) => {
                let mut g = g;
                g.cancel();
                cancelled = Some(g);
            },
            None => {},
        }
        roster.players.clear();
        assert(roster@ =~= Seq::<PlayerView>::empty());
        plan.push(StoreStep::RemovePinIndex);
        plan.push(StoreStep::ClearBackReferences);
        plan.push(StoreStep::DeleteMatchKeys);
        released = roster_copy(&everybody);
        events.push(
            Announcement::new(
                EventKind::GameTerminated,
                game_id,
                everybody,
                "Game terminated because host left",
            ),
        );
    } else {
        plan.push(StoreStep::RemovePlayer);
        plan.push(StoreStep::RemoveBackReference);
        released.push(String::from_str(user_id));
        assert(text_views(released@) =~= seq![user_id@]);
        events.push(
            Announcement::new(EventKind::PlayerLeft, game_id, everybody, "Player left the game"),
        );
    }
    assert(plan@ =~= leave_plan(ends));
    assert(announcement_views(events@) =~= seq![leave_event(game_id@, before, ends)]);
    let response = LeaveMatchResponse {
        message: if ends {
            String::from_str("You have left the game and it has been terminated")
        } else {
            String::from_str("You have left the game")
        },
        game_deleted: ends,
        affected_players: roster_copy(&released),
    };
    Ok(LeaveOutcome { game: cancelled, roster, game_deleted: ends, released, plan, events, response })
}

/// A copy of a list of texts.
pub fn roster_copy(texts: &Vec<String>) -> (copy: Vec<String>)
    ensures
        text_views(copy@) == text_views(texts@),
{
    let mut copy: Vec<String> = Vec::new();
    let mut i: usize = 0;
    while i < texts.len()
        invariant
            i <= texts@.len(),
            copy@.len() == i,
            forall|k: int| 0 <= k < i ==> (#[trigger] copy@[k])@ == texts@[k]@,
        decreases texts@.len() - i,
    {
        copy.push(texts[i].clone());
        i += 1;
    }
    assert(text_views(copy@) =~= text_views(texts@));
    copy
}

/// Why starting a game is refused, if it is. In this order: the match is
/// unknown; the user is not the host; there are not exactly four
/// players; the match is not waiting; no deal was found on which somebody
/// can bid.
pub open spec fn start_refusal(
    game: Option<MatchView>,
    players: Seq<PlayerView>,
    user: Seq<char>,
    deal_found: bool,
) -> Option<ErrorView> {
    if game is None {
        Some(plain_error(ErrorKind::NotFound, "Game not found"@))
    } else if !is_host(players, user) {
        Some(plain_error(ErrorKind::Forbidden, "Only host can start the game"@))
    } else if players.len() != PLAYERS_PER_GAME {
        Some(plain_error(ErrorKind::Conflict, "Invalid player count"@))
    } else if game->0.status != NormalMatchStatus::Waiting {
        Some(plain_error(ErrorKind::Conflict, "Game cannot be started"@))
    } else if !deal_found {
        Some(plain_error(ErrorKind::Fatal, "Unable to deal valid hands"@))
    } else {
        None
    }
}

/// The writes that start a game: the hands first, then the record of the
/// match, which shows the game as started.
pub open spec fn start_plan() -> Seq<StoreStep> {
    seq![StoreStep::WriteHands, StoreStep::WriteMatch]
}

/// The events that start a game: the start for all players, then for each
/// seat its hand, for the eyes of its owner alone.
pub open spec fn start_events(game_id: Seq<char>, players: Seq<PlayerView>) -> Seq<AnnouncementView> {
    seq![
        AnnouncementView {
            kind: EventKind::GameStarted,
            game_id,
            affected_players: user_ids(players),
            message: "Game started"@,
        },
        hand_dealt_event(game_id, players, 0),
        hand_dealt_event(game_id, players, 1),
        hand_dealt_event(game_id, players, 2),
        hand_dealt_event(game_id, players, 3),
    ]
}

/// The event that tells a seat of its hand.
pub open spec fn hand_dealt_event(game_id: Seq<char>, players: Seq<PlayerView>, seat: int) -> AnnouncementView {
    AnnouncementView {
        kind: EventKind::HandDealt,
        game_id,
        affected_players: seq![players[seat].user_id],
        message: "Hand dealt"@,
    }
}

/// Starts a game with the dealer and the deal that are given.
///
/// Refused unless the match is known and waiting, the user is its host
/// and it has exactly four players, and where no deal was found. The
/// match goes through dealing into bidding: the dealer is set, the seat
/// to the left of the dealer bids first, and every player gets eight
/// cards.
pub fn start_game_with(
    game: Option<NormalMatch>,
    roster: &Roster,
    user_id: &str,
    dealer: usize,
    deal: Option<[Vec<Card>; 4]>,
) -> (res: Result<StartOutcome, CommandError>)
    ensures
        res is Err <==> start_refusal(
            crate::bidding::opt_match(game),
            roster@,
            user_id@,
            deal is Some,
        ) is Some,
        res matches Err(e) ==> Some(e@) == start_refusal(
            crate::bidding::opt_match(game),
            roster@,
            user_id@,
            deal is Some,
        ),
        res matches Ok(outcome) ==> {
            &&& outcome.game@ == game->0@.after_start_dealing(dealer).after_start_bidding()
            &&& outcome.game@.status == NormalMatchStatus::Bidding
            &&& outcome.game@.dealer_position == Some(dealer)
            &&& outcome.game@.current_bidder == Some(next_seat(dealer))
            &&& outcome.dealer == dealer
            &&& Some(outcome.hands) == deal
            &&& outcome.plan@ == start_plan()
            &&& announcement_views(outcome.events@) == start_events(game->0@.id, roster@)
            &&& outcome.response.message@ == "Game started successfully"@
            &&& outcome.response.hands_dealt
            &&& outcome.response.dealing_attempts == 1
            &&& outcome.response.game_id@ == game->0@.id
            &&& outcome.response.state.shows(outcome.game@, roster@)
        },
{
    let mut game = match game {
        Some(g) => g,
        None => {
            return Err(CommandError::new(ErrorKind::NotFound, "Game not found"));
        },
    };
    if !roster.is_host(user_id) {
        return Err(CommandError::new(ErrorKind::Forbidden, "Only host can start the game"));
    }
    if roster.len() != PLAYERS_PER_GAME {
        return Err(CommandError::new(ErrorKind::Conflict, "Invalid player count"));
    }
    if !game.can_start() {
        return Err(CommandError::new(ErrorKind::Conflict, "Game cannot be started"));
    }
    let hands = match deal {
        Some(h) => h,
        None => {
            return Err(CommandError::new(ErrorKind::Fatal, "Unable to deal valid hands"));
        },
    };
    game.start_dealing(dealer);
    game.start_bidding();
    let mut plan: Vec<StoreStep> = Vec::new();
    plan.push(StoreStep::WriteHands);
    plan.push(StoreStep::WriteMatch);
    assert(plan@ =~= start_plan());
    let mut events: Vec<Announcement> = Vec::new();
    events.push(
        Announcement::new(EventKind::GameStarted, game.id.as_str(), roster.user_ids(), "Game started"),
    );
    let mut seat: usize = 0;
    while seat < 4
        invariant
            seat <= 4,
            roster@.len() == 4,
            events@.len() == 1 + seat,
            events@[0]@ == start_events(game@.id, roster@)[0],
            forall|k: int|
                0 <= k < seat ==> (#[trigger] events@[1 + k])@ == hand_dealt_event(
                    game@.id,
                    roster@,
                    k,
                ),
        decreases 4 - seat,
    {
        let mut owner: Vec<String> = Vec::new();
        owner.push(roster.players[seat].user_id.clone());
        assert(text_views(owner@) =~= seq![roster@[seat as int].user_id]);
        events.push(Announcement::new(EventKind::HandDealt, game.id.as_str(), owner, "Hand dealt"));
        seat += 1;
    }
    assert forall|j: int| 0 <= j < 5 implies announcement_views(events@)[j] == start_events(
        game@.id,
        roster@,
    )[j] by {
        if j > 0 {
            assert(events@[1 + (j - 1)]@ == hand_dealt_event(game@.id, roster@, j - 1));
        }
    }
    assert(announcement_views(events@) =~= start_events(game@.id, roster@));
    let response = StartGameResponse {
        message: String::from_str("Game started successfully"),
        game_id: game.id.clone(),
        state: GameStartState::of(&game, roster),
        hands_dealt: true,
        dealing_attempts: 1,
    };
    Ok(StartOutcome { game, dealer, hands, plan, events, response })
}

/// Starts a game: chance picks the dealer, and a fresh deck is shuffled
/// and dealt until somebody can bid.
///
/// Chance decides the dealer and the hands, so the answer is that of
/// [`start_game_with`] for some dealer at the table and some outcome of
/// the dealing. The hands that come back are a deal of the whole deck on
/// which somebody can bid.
pub fn start_game(game: Option<NormalMatch>, roster: &Roster, user_id: &str) -> (res: Result<
    StartOutcome,
    CommandError,
>)
    ensures
        res matches Err(e) ==> exists|deal_found: bool|
            Some(e@) == #[trigger] start_refusal(
                crate::bidding::opt_match(game),
                roster@,
                user_id@,
                deal_found,
            ),
        res matches Ok(outcome) ==> {
            &&& start_refusal(crate::bidding::opt_match(game), roster@, user_id@, true) is None
            &&& outcome.dealer < 4
            &&& outcome.game@ == game->0@.after_start_dealing(outcome.dealer).after_start_bidding()
            &&& outcome.game@.status == NormalMatchStatus::Bidding
            &&& outcome.game@.current_bidder == Some(next_seat(outcome.dealer))
            &&& some_hand_can_bid(outcome.hands@)
            &&& exists|cards: Seq<Card>|
                cards.to_multiset() == fresh_deck().to_multiset() && #[trigger] is_deal_of(
                    outcome.hands@,
                    cards,
                )
            &&& outcome.plan@ == start_plan()
            &&& announcement_views(outcome.events@) == start_events(game->0@.id, roster@)
            &&& outcome.game@.dealer_position == Some(outcome.dealer)
            &&& outcome.response.message@ == "Game started successfully"@
            &&& outcome.response.hands_dealt
            &&& outcome.response.dealing_attempts == 1
            &&& outcome.response.game_id@ == game->0@.id
            &&& outcome.response.state.shows(outcome.game@, roster@)
        },
{
    let dealer = random_below(PLAYERS_PER_GAME);
    let deal = Deck::deal_until_valid();
    let ghost deal_found = deal is Some;
    let res = start_game_with(game, roster, user_id, dealer, deal);
    proof {
        if res is Err {
            assert(Some(res->Err_0@) == start_refusal(
                crate::bidding::opt_match(game),
                roster@,
                user_id@,
                deal_found,
            ));
        }
    }
    res
}

} // verus!
