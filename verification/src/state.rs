//! The state-management engine.
//!
//! [`GameStationState`] owns the persistent records: profiles keyed by
//! player address, leaderboards keyed by game category, rooms keyed by room
//! id, snake high scores keyed by player address, and two global counters.
//! Every mutating action is a total function from the old state to the new
//! one; each method's contract states that function exactly, over the
//! spec-level step functions defined here.

use vstd::prelude::*;
use vstd::string::StrSliceExecFns;
use vstd::string::StringExecFns;
use crate::leaderboard;
use crate::leaderboard::{lb_games_fit, lb_update, lb_wf};
use crate::names;
use crate::names::{fallback_name, game_type_name, room_id_of, room_status_name};
use crate::progression::level_of;
use crate::strmap::StrMap;
use crate::types::{
    GameState, GameStateV, GameType, LeaderboardEntry, LeaderboardEntryV, Operation, RoomStatus,
    UserProfile, UserProfileV, default_profile,
};

verus! {

/// A multiplayer room: participants and lifecycle status.
#[derive(Debug)]
pub struct GameRoom {
    pub room_id: String,
    pub game_type: GameType,
    pub creator: String,
    pub players: Vec<String>,
    pub max_players: u8,
    pub entry_fee: u64,
    pub status: RoomStatus,
    pub game_state: Option<GameState>,
    pub created_at: u64,
}

/// Spec-level view of [`GameRoom`].
#[verifier::ext_equal]
pub struct RoomV {
    pub room_id: Seq<char>,
    pub game_type: GameType,
    pub creator: Seq<char>,
    pub players: Seq<Seq<char>>,
    pub max_players: u8,
    pub entry_fee: u64,
    pub status: RoomStatus,
    pub game_state: Option<GameStateV>,
    pub created_at: u64,
}

impl RoomV {
    /// A room never holds more players than its capacity.
    pub open spec fn wf(self) -> bool {
        self.players.len() <= self.max_players
    }
}

impl DeepView for GameRoom {
    type V = RoomV;

    open spec fn deep_view(&self) -> RoomV {
        self.view()
    }
}

impl View for GameRoom {
    type V = RoomV;

    open spec fn view(&self) -> RoomV {
        RoomV {
            room_id: self.room_id@,
            game_type: self.game_type,
            creator: self.creator@,
            players: self.players.deep_view(),
            max_players: self.max_players,
            entry_fee: self.entry_fee,
            status: self.status,
            game_state: self.game_state.deep_view(),
            created_at: self.created_at,
        }
    }
}

/// Clones a list of player addresses.
fn clone_players(v: &Vec<String>) -> (r: Vec<String>)
    ensures
        r.deep_view() == v.deep_view(),
{
    let mut r: Vec<String> = Vec::new();
    let n = v.len();
    let mut i: usize = 0;
    while i < n
        invariant
            n == v.len(),
            i <= n,
            r@.len() == i,
            forall|j: int| 0 <= j < i ==> r@[j]@ == v@[j]@,
        decreases n - i,
    {
        r.push(v[i].clone());
        i = i + 1;
    }
    proof {
        assert forall|j: int| 0 <= j < r@.len() implies r.deep_view()[j] == v.deep_view()[j] by {
            assert(r@[j]@ == v@[j]@);
        }
        assert(r.deep_view() =~= v.deep_view());
    }
    r
}

/// Clones an optional session payload.
fn clone_game_state(s: &Option<GameState>) -> (r: Option<GameState>)
    ensures
        r.deep_view() == s.deep_view(),
{
    match s {
        Some(g) => Some(g.clone()),
        None => None,
    }
}

impl Clone for GameRoom {
    fn clone(&self) -> (r: Self)
        ensures
            r@ == self@,
    {
        let r = GameRoom {
            room_id: self.room_id.clone(),
            game_type: self.game_type,
            creator: self.creator.clone(),
            players: clone_players(&self.players),
            max_players: self.max_players,
            entry_fee: self.entry_fee,
            status: self.status,
            game_state: clone_game_state(&self.game_state),
            created_at: self.created_at,
        };
        proof {
            assert(r@ =~= self@);
        }
        r
    }
}

/// The engine's state, abstracted over maps from strings to record views.
#[verifier::ext_equal]
pub struct GameStationStateV {
    pub users: Map<Seq<char>, UserProfileV>,
    pub leaderboards: Map<Seq<char>, Seq<LeaderboardEntryV>>,
    pub rooms: Map<Seq<char>, RoomV>,
    pub snake_high_scores: Map<Seq<char>, u32>,
    pub total_games_played: u64,
    pub total_players: u64,
}

/// A category's leaderboard; an absent category reads as empty.
pub open spec fn lb_of(
    lbs: Map<Seq<char>, Seq<LeaderboardEntryV>>,
    cat: Seq<char>,
) -> Seq<LeaderboardEntryV> {
    if lbs.contains_key(cat) {
        lbs[cat]
    } else {
        Seq::empty()
    }
}

/// A player's stored snake high score; an absent record reads as zero.
pub open spec fn snake_high_of(m: Map<Seq<char>, u32>, addr: Seq<char>) -> u32 {
    if m.contains_key(addr) {
        m[addr]
    } else {
        0
    }
}

/// The display name a submission records: the profile's name when one is
/// set, otherwise the fallback derived from the address.
pub open spec fn display_name_of(users: Map<Seq<char>, UserProfileV>, addr: Seq<char>) -> Seq<
    char,
> {
    if users.contains_key(addr) && users[addr].username.len() > 0 {
        users[addr].username
    } else {
        fallback_name(addr)
    }
}

impl GameStationStateV {
    /// Every stored record is well formed: profiles carry the level their
    /// xp confers, leaderboards are bounded, sorted and duplicate-free, and
    /// no room holds more players than its capacity.
    pub open spec fn wf(self) -> bool {
        &&& forall|a: Seq<char>| #[trigger] self.users.contains_key(a) ==> self.users[a].wf()
        &&& forall|c: Seq<char>| #[trigger]
            self.leaderboards.contains_key(c) ==> lb_wf(self.leaderboards[c])
        &&& forall|id: Seq<char>| #[trigger] self.rooms.contains_key(id) ==> self.rooms[id].wf()
    }
}

/// The empty station: no records, both counters zero.
pub open spec fn initial_state() -> GameStationStateV {
    GameStationStateV {
        users: Map::empty(),
        leaderboards: Map::empty(),
        rooms: Map::empty(),
        snake_high_scores: Map::empty(),
        total_games_played: 0,
        total_players: 0,
    }
}

/// State after `get_or_create_user`: untouched when the player is known,
/// otherwise the default profile is stored and the player counter grows by
/// exactly one.
pub open spec fn get_or_create_step(s: GameStationStateV, addr: Seq<char>) -> GameStationStateV {
    if s.users.contains_key(addr) {
        s
    } else {
        GameStationStateV {
            users: s.users.insert(addr, default_profile()),
            total_players: (s.total_players + 1) as u64,
            ..s
        }
    }
}

/// Profile after a display update: only name and avatar change.
pub open spec fn display_updated_profile(p: UserProfileV, name: Seq<char>, avatar: u8) -> UserProfileV {
    UserProfileV { username: name, avatar_id: avatar, ..p }
}

/// State after `update_profile`: the caller's profile exists (created if
/// need be) and carries the new display fields; statistics are untouched.
pub open spec fn update_profile_step(
    s: GameStationStateV,
    addr: Seq<char>,
    name: Seq<char>,
    avatar: u8,
) -> GameStationStateV {
    let s1 = get_or_create_step(s, addr);
    GameStationStateV {
        users: s1.users.insert(addr, display_updated_profile(s1.users[addr], name, avatar)),
        ..s1
    }
}

/// Profile after a snake submission: the games counter grows by one; a new
/// high stores the score and grants it as xp, otherwise a tenth of the
/// score is granted; the level is recomputed from the new xp.
pub open spec fn snake_profile_step(p: UserProfileV, score: u32, is_high: bool) -> UserProfileV {
    let gained: u64 = if is_high {
        score as u64
    } else {
        (score / 10) as u64
    };
    let xp = (p.xp + gained) as u64;
    UserProfileV {
        snake_high_score: if is_high {
            score
        } else {
            p.snake_high_score
        },
        snake_games: (p.snake_games + 1) as u32,
        xp,
        level: level_of(xp),
        ..p
    }
}

/// State after `update_snake_score`.  On a new high the stored high score,
/// the profile and the snake leaderboard all change; otherwise only the
/// profile's games counter and xp move.  A missing profile leaves the
/// profile map untouched.
pub open spec fn update_snake_score_step(
    s: GameStationStateV,
    addr: Seq<char>,
    score: u32,
    now: u64,
) -> GameStationStateV {
    let is_high = score > snake_high_of(s.snake_high_scores, addr);
    let users1 = if s.users.contains_key(addr) {
        s.users.insert(addr, snake_profile_step(s.users[addr], score, is_high))
    } else {
        s.users
    };
    if is_high {
        GameStationStateV {
            snake_high_scores: s.snake_high_scores.insert(addr, score),
            users: users1,
            leaderboards: s.leaderboards.insert(
                "snake"@,
                lb_update(
                    lb_of(s.leaderboards, "snake"@),
                    addr,
                    display_name_of(users1, addr),
                    score as u64,
                    now,
                ),
            ),
            ..s
        }
    } else {
        GameStationStateV { users: users1, ..s }
    }
}

/// Profile after a tic-tac-toe result: a win grants 50 xp and one win, a
/// loss grants 10 xp and one loss; the level is recomputed.
pub open spec fn ttt_profile_step(p: UserProfileV, won: bool) -> UserProfileV {
    let gained: u64 = if won {
        50
    } else {
        10
    };
    let xp = (p.xp + gained) as u64;
    UserProfileV {
        tictactoe_wins: if won {
            (p.tictactoe_wins + 1) as u32
        } else {
            p.tictactoe_wins
        },
        tictactoe_losses: if won {
            p.tictactoe_losses
        } else {
            (p.tictactoe_losses + 1) as u32
        },
        xp,
        level: level_of(xp),
        ..p
    }
}

/// State after `update_tictactoe_result`: the profile (when present) takes
/// the outcome.  The global games counter is not touched here: the
/// dispatcher counts one game per submitted result, however many
/// participants it updates.
pub open spec fn update_tictactoe_step(
    s: GameStationStateV,
    addr: Seq<char>,
    won: bool,
) -> GameStationStateV {
    let users1 = if s.users.contains_key(addr) {
        s.users.insert(addr, ttt_profile_step(s.users[addr], won))
    } else {
        s.users
    };
    GameStationStateV { users: users1, ..s }
}

/// The room `create_room` stores: the creator already seated, status
/// `Waiting`, no session payload.
pub open spec fn new_room(
    gt: GameType,
    creator: Seq<char>,
    max_players: u8,
    entry_fee: u64,
    now: u64,
) -> RoomV {
    RoomV {
        room_id: room_id_of(gt, now),
        game_type: gt,
        creator,
        players: seq![creator],
        max_players,
        entry_fee,
        status: RoomStatus::Waiting,
        game_state: None,
        created_at: now,
    }
}

/// State after `create_room`: the new room stored under its derived id.
pub open spec fn create_room_step(
    s: GameStationStateV,
    gt: GameType,
    creator: Seq<char>,
    max_players: u8,
    entry_fee: u64,
    now: u64,
) -> GameStationStateV {
    GameStationStateV {
        rooms: s.rooms.insert(room_id_of(gt, now), new_room(gt, creator, max_players, entry_fee, now)),
        ..s
    }
}

/// State after `join_room`: untouched when the room is unknown or already
/// at capacity; otherwise the player is appended, and the join that fills
/// the last seat flips the status to `InProgress` in the same update.
pub open spec fn join_room_step(
    s: GameStationStateV,
    room_id: Seq<char>,
    player: Seq<char>,
) -> GameStationStateV {
    if !s.rooms.contains_key(room_id) {
        s
    } else {
        let r = s.rooms[room_id];
        if r.players.len() >= r.max_players as nat {
            s
        } else {
            let players = r.players.push(player);
            let status = if players.len() == r.max_players as nat {
                RoomStatus::InProgress
            } else {
                r.status
            };
            GameStationStateV {
                rooms: s.rooms.insert(room_id, RoomV { players, status, ..r }),
                ..s
            }
        }
    }
}

/// The profile can absorb a snake submission and the snake leaderboard a
/// bump without overflowing a counter.
pub open spec fn snake_submission_fits(s: GameStationStateV, addr: Seq<char>, score: u32) -> bool {
    &&& (s.users.contains_key(addr) ==> {
        let p = s.users[addr];
        &&& p.xp + score <= u64::MAX
        &&& p.snake_games < u32::MAX
    })
    &&& lb_games_fit(lb_of(s.leaderboards, "snake"@))
}

/// The profile can absorb a tic-tac-toe result without overflowing a
/// counter.
pub open spec fn ttt_result_fits(s: GameStationStateV, addr: Seq<char>) -> bool {
    s.users.contains_key(addr) ==> {
        let p = s.users[addr];
        &&& p.xp + 50 <= u64::MAX
        &&& p.tictactoe_wins < u32::MAX
        &&& p.tictactoe_losses < u32::MAX
    }
}

/// The operation's arithmetic fits the machine counters it touches: the
/// xp, per-game and global counters it increments stay within their types.
pub open spec fn operation_fits(s: GameStationStateV, owner: Seq<char>, op: Operation) -> bool {
    match op {
        Operation::SubmitSnakeScore { score } => {
            &&& s.total_players < u64::MAX
            &&& snake_submission_fits(get_or_create_step(s, owner), owner, score)
        },
        Operation::SubmitTicTacToeResult { won, opponent } => {
            let s1 = get_or_create_step(s, owner);
            let s2 = update_tictactoe_step(s1, owner, won);
            &&& s.total_players < u64::MAX
            &&& s.total_games_played < u64::MAX
            &&& ttt_result_fits(s1, owner)
            &&& match opponent {
                Some(opp) => {
                    &&& s2.total_players < u64::MAX
                    &&& ttt_result_fits(get_or_create_step(s2, opp@), opp@)
                },
                None => true,
            }
        },
        Operation::UpdateProfile { .. } => s.total_players < u64::MAX,
        Operation::CreateRoom { max_players, .. } => max_players >= 1,
        Operation::JoinRoom { .. } => true,
        Operation::SubmitMove { .. } => true,
    }
}

/// The state transition of one dispatched operation, as the engine applies
/// it: score and result submissions first ensure the acting player's
/// profile exists; a result with an opponent applies the inverse outcome to
/// the opponent's profile through the same rule, and the global games
/// counter moves exactly once per submitted result, not once per
/// participant.
pub open spec fn execute_step(
    s: GameStationStateV,
    owner: Seq<char>,
    op: Operation,
    now: u64,
) -> GameStationStateV {
    match op {
        Operation::SubmitSnakeScore { score } => update_snake_score_step(
            get_or_create_step(s, owner),
            owner,
            score,
            now,
        ),
        Operation::SubmitTicTacToeResult { won, opponent } => {
            let s2 = update_tictactoe_step(get_or_create_step(s, owner), owner, won);
            let s3 = match opponent {
                Some(opp) => update_tictactoe_step(get_or_create_step(s2, opp@), opp@, !won),
                None => s2,
            };
            GameStationStateV { total_games_played: (s3.total_games_played + 1) as u64, ..s3 }
        },
        Operation::UpdateProfile { username, avatar_id } => update_profile_step(
            s,
            owner,
            username@,
            avatar_id,
        ),
        Operation::CreateRoom { game_type, max_players, entry_fee } => create_room_step(
            s,
            game_type,
            owner,
            max_players,
            entry_fee,
            now,
        ),
        Operation::JoinRoom { room_id } => join_room_step(s, room_id@, owner),
        Operation::SubmitMove { .. } => s,
    }
}

/// Creating a missing profile keeps the state well formed.
pub proof fn lemma_get_or_create_step_wf(s: GameStationStateV, addr: Seq<char>)
    requires
        s.wf(),
    ensures
        get_or_create_step(s, addr).wf(),
        get_or_create_step(s, addr).users.contains_key(addr),
{
    crate::types::lemma_default_profile_wf();
}

/// A display update keeps the state well formed.
pub proof fn lemma_update_profile_step_wf(
    s: GameStationStateV,
    addr: Seq<char>,
    name: Seq<char>,
    avatar: u8,
)
    requires
        s.wf(),
    ensures
        update_profile_step(s, addr, name, avatar).wf(),
{
    lemma_get_or_create_step_wf(s, addr);
}

/// A snake submission keeps the state well formed, whatever the score: the
/// profile's level is recomputed from its new xp, and the updated snake
/// leaderboard stays bounded, sorted and duplicate-free.
pub proof fn lemma_update_snake_score_step_wf(
    s: GameStationStateV,
    addr: Seq<char>,
    score: u32,
    now: u64,
)
    requires
        s.wf(),
    ensures
        update_snake_score_step(s, addr, score, now).wf(),
{
    let is_high = score > snake_high_of(s.snake_high_scores, addr);
    if is_high {
        let users1 = if s.users.contains_key(addr) {
            s.users.insert(addr, snake_profile_step(s.users[addr], score, true))
        } else {
            s.users
        };
        crate::leaderboard::lemma_lb_update_wf(
            lb_of(s.leaderboards, "snake"@),
            addr,
            display_name_of(users1, addr),
            score as u64,
            now,
        );
    }
}

/// A tic-tac-toe outcome keeps the state well formed.
pub proof fn lemma_update_tictactoe_step_wf(s: GameStationStateV, addr: Seq<char>, won: bool)
    requires
        s.wf(),
    ensures
        update_tictactoe_step(s, addr, won).wf(),
{
}

/// Creating a room of capacity at least one keeps the state well formed.
pub proof fn lemma_create_room_step_wf(
    s: GameStationStateV,
    gt: GameType,
    creator: Seq<char>,
    max_players: u8,
    entry_fee: u64,
    now: u64,
)
    requires
        s.wf(),
        max_players >= 1,
    ensures
        create_room_step(s, gt, creator, max_players, entry_fee, now).wf(),
{
}

/// A join keeps the state well formed: a player is only seated while a
/// seat is free.
pub proof fn lemma_join_room_step_wf(s: GameStationStateV, room_id: Seq<char>, player: Seq<char>)
    requires
        s.wf(),
    ensures
        join_room_step(s, room_id, player).wf(),
{
}

/// Every dispatched operation keeps the state well formed.
pub proof fn lemma_execute_step_wf(
    s: GameStationStateV,
    owner: Seq<char>,
    op: Operation,
    now: u64,
)
    requires
        s.wf(),
        op matches Operation::CreateRoom { max_players, .. } ==> max_players >= 1,
    ensures
        execute_step(s, owner, op, now).wf(),
{
    match op {
        Operation::SubmitSnakeScore { score } => {
            lemma_get_or_create_step_wf(s, owner);
            lemma_update_snake_score_step_wf(get_or_create_step(s, owner), owner, score, now);
        },
        Operation::SubmitTicTacToeResult { won, opponent } => {
            lemma_get_or_create_step_wf(s, owner);
            let s1 = get_or_create_step(s, owner);
            lemma_update_tictactoe_step_wf(s1, owner, won);
            let s2 = update_tictactoe_step(s1, owner, won);
            match opponent {
                Some(opp) => {
                    lemma_get_or_create_step_wf(s2, opp@);
                    lemma_update_tictactoe_step_wf(get_or_create_step(s2, opp@), opp@, !won);
                },
                None => {},
            }
        },
        Operation::UpdateProfile { username, avatar_id } => {
            lemma_update_profile_step_wf(s, owner, username@, avatar_id);
        },
        Operation::CreateRoom { game_type, max_players, entry_fee } => {
            lemma_create_room_step_wf(s, game_type, owner, max_players, entry_fee, now);
        },
        Operation::JoinRoom { room_id } => {
            lemma_join_room_step_wf(s, room_id@, owner);
        },
        Operation::SubmitMove { .. } => {},
    }
}

/// Room details handed to the read surface.
#[derive(Debug)]
pub struct RoomInfo {
    pub room_id: String,
    pub game_type: String,
    pub player_count: u32,
    pub max_players: u32,
    pub status: String,
}

/// Station-wide statistics handed to the read surface.
#[derive(Debug, Clone, Copy, PartialEq, Eq, Structural)]
pub struct GlobalStats {
    pub total_games: u64,
    pub total_players: u64,
    pub games_available: u32,
}

/// The engine's persistent state.
pub struct GameStationState {
    users: StrMap<UserProfile>,
    leaderboards: StrMap<Vec<LeaderboardEntry>>,
    rooms: StrMap<GameRoom>,
    snake_high_scores: StrMap<u32>,
    total_games_played: u64,
    total_players: u64,
}

impl View for GameStationState {
    type V = GameStationStateV;

    closed spec fn view(&self) -> GameStationStateV {
        GameStationStateV {
            users: self.users@,
            leaderboards: self.leaderboards@,
            rooms: self.rooms@,
            snake_high_scores: self.snake_high_scores@,
            total_games_played: self.total_games_played,
            total_players: self.total_players,
        }
    }
}

impl GameStationState {
    /// The stored maps keep their keys unique.
    pub closed spec fn maps_wf(&self) -> bool {
        &&& self.users.wf()
        &&& self.leaderboards.wf()
        &&& self.rooms.wf()
        &&& self.snake_high_scores.wf()
    }

    /// The whole state is well formed.
    pub open spec fn wf(&self) -> bool {
        &&& self.maps_wf()
        &&& self@.wf()
    }

    /// An empty station.
    pub fn new() -> (r: Self)
        ensures
            r.wf(),
            r@ == initial_state(),
    {
        let r = GameStationState {
            users: StrMap::new(),
            leaderboards: StrMap::new(),
            rooms: StrMap::new(),
            snake_high_scores: StrMap::new(),
            total_games_played: 0,
            total_players: 0,
        };
        proof {
            assert(r@ =~= initial_state());
        }
        r
    }

    /// The level that `xp` experience points confer.
    pub fn calculate_level(xp: u64) -> (level: u32)
        ensures
            level == level_of(xp),
    {
        crate::progression::calculate_level_of_xp(xp)
    }

    /// Returns the stored profile, or stores and returns the default one,
    /// counting the new player; calling it again for the same player never
    /// moves the counter.
    pub fn get_or_create_user(&mut self, address: &String) -> (r: UserProfile)
        requires
            old(self).wf(),
            old(self)@.total_players < u64::MAX,
        ensures
            final(self).wf(),
            final(self)@ == get_or_create_step(old(self)@, address@),
            r@ == if old(self)@.users.contains_key(address@) {
                old(self)@.users[address@]
            } else {
                default_profile()
            },
    {
        let existing = self.users.get(address);
        match existing {
            Some(p) => {
                let r = p.clone();
                proof {
                    assert(self@ =~= get_or_create_step(old(self)@, address@));
                }
                r
            },
            None => {
                let p = UserProfile::default();
                let r = p.clone();
                self.users.insert(address, p);
                self.total_players = self.total_players + 1;
                proof {
                    assert(self@ =~= get_or_create_step(old(self)@, address@));
                    crate::types::lemma_default_profile_wf();
                }
                r
            },
        }
    }

    /// Overwrites only the display name and avatar of the caller's profile,
    /// creating the profile first when it does not exist; every statistic
    /// field is left untouched.
    pub fn update_profile(&mut self, address: &String, username: String, avatar_id: u8)
        requires
            old(self).wf(),
            old(self)@.total_players < u64::MAX,
        ensures
            final(self).wf(),
            final(self)@ == update_profile_step(old(self)@, address@, username@, avatar_id),
    {
        let mut profile = self.get_or_create_user(address);
        let ghost s1 = self@;
        profile.username = username;
        profile.avatar_id = avatar_id;
        proof {
            assert(profile@ =~= display_updated_profile(s1.users[address@], username@, avatar_id));
        }
        self.users.insert(address, profile);
        proof {
            assert(self@ =~= update_profile_step(old(self)@, address@, username@, avatar_id));
            assert(s1.users.contains_key(address@));
            assert(display_updated_profile(s1.users[address@], username@, avatar_id).wf());
        }
    }

    /// The display name recorded on a leaderboard for `address`.
    fn display_name(&self, address: &String) -> (r: String)
        requires
            self.wf(),
        ensures
            r@ == display_name_of(self@.users, address@),
    {
        match self.users.get(address) {
            Some(p) => {
                if p.username.as_str().unicode_len() > 0 {
                    p.username.clone()
                } else {
                    names::make_fallback_name(address)
                }
            },
            None => names::make_fallback_name(address),
        }
    }

    /// Applies a submission to a category's leaderboard.
    fn update_leaderboard(&mut self, game_type: &String, address: &String, score: u64, now: u64)
        requires
            old(self).wf(),
            lb_games_fit(lb_of(old(self)@.leaderboards, game_type@)),
        ensures
            final(self).wf(),
            final(self)@ == (GameStationStateV {
                leaderboards: old(self)@.leaderboards.insert(
                    game_type@,
                    lb_update(
                        lb_of(old(self)@.leaderboards, game_type@),
                        address@,
                        display_name_of(old(self)@.users, address@),
                        score,
                        now,
                    ),
                ),
                ..old(self)@
            }),
    {
        let mut entries: Vec<LeaderboardEntry> = match self.leaderboards.get(game_type) {
            Some(v) => leaderboard::clone_entries(v),
            None => Vec::new(),
        };
        proof {
            assert(entries.deep_view() =~= lb_of(self@.leaderboards, game_type@));
        }
        let name = self.display_name(address);
        leaderboard::apply_submission(&mut entries, address, name, score, now);
        self.leaderboards.insert(game_type, entries);
        proof {
            assert(self@ =~= (GameStationStateV {
                leaderboards: old(self)@.leaderboards.insert(
                    game_type@,
                    lb_update(
                        lb_of(old(self)@.leaderboards, game_type@),
                        address@,
                        display_name_of(old(self)@.users, address@),
                        score,
                        now,
                    ),
                ),
                ..old(self)@
            }));
        }
    }

    /// Applies a snake score submission.
    ///
    /// Returns whether the score is a new high (strictly above the stored
    /// one, zero when absent).  On a new high the score is stored, granted
    /// as xp and sent to the snake leaderboard; otherwise a tenth of the
    /// score is granted.  Either way the profile's snake games counter grows
    /// by one and its level is recomputed.
    pub fn update_snake_score(&mut self, address: &String, score: u32, now: u64) -> (is_new_high:
        bool)
        requires
            old(self).wf(),
            snake_submission_fits(old(self)@, address@, score),
        ensures
            final(self).wf(),
            is_new_high == (score > snake_high_of(old(self)@.snake_high_scores, address@)),
            final(self)@ == update_snake_score_step(old(self)@, address@, score, now),
    {
        let current_high = match self.snake_high_scores.get(address) {
            Some(h) => *h,
            None => 0,
        };
        if score > current_high {
            self.snake_high_scores.insert(address, score);
            match self.users.get(address) {
                Some(p) => {
                    let mut profile = p.clone();
                    profile.snake_high_score = score;
                    profile.snake_games = profile.snake_games + 1;
                    profile.xp = profile.xp + score as u64;
                    profile.level = Self::calculate_level(profile.xp);
                    proof {
                        assert(profile@ =~= snake_profile_step(
                            old(self)@.users[address@],
                            score,
                            true,
                        ));
                    }
                    self.users.insert(address, profile);
                },
                None => {},
            }
            let ghost mid = self@;
            proof {
                assert(mid.users =~= update_snake_score_step(
                    old(self)@,
                    address@,
                    score,
                    now,
                ).users);
            }
            let category = String::from_str("snake");
            self.update_leaderboard(&category, address, score as u64, now);
            proof {
                assert(self@ =~= update_snake_score_step(old(self)@, address@, score, now));
            }
            true
        } else {
            match self.users.get(address) {
                Some(p) => {
                    let mut profile = p.clone();
                    profile.snake_games = profile.snake_games + 1;
                    profile.xp = profile.xp + (score / 10) as u64;
                    profile.level = Self::calculate_level(profile.xp);
                    proof {
                        assert(profile@ =~= snake_profile_step(
                            old(self)@.users[address@],
                            score,
                            false,
                        ));
                    }
                    self.users.insert(address, profile);
                },
                None => {},
            }
            proof {
                assert(self@ =~= update_snake_score_step(old(self)@, address@, score, now));
            }
            false
        }
    }

    /// Applies a tic-tac-toe outcome to one player's profile: a win grants
    /// 50 xp and one win, a loss 10 xp and one loss, and the level is
    /// recomputed.  The global games counter is counted by the dispatcher,
    /// once per submitted result, however many profiles the result touches.
    pub fn update_tictactoe_result(&mut self, address: &String, won: bool)
        requires
            old(self).wf(),
            ttt_result_fits(old(self)@, address@),
        ensures
            final(self).wf(),
            final(self)@ == update_tictactoe_step(old(self)@, address@, won),
    {
        match self.users.get(address) {
            Some(p) => {
                let mut profile = p.clone();
                if won {
                    profile.tictactoe_wins = profile.tictactoe_wins + 1;
                    profile.xp = profile.xp + 50;
                } else {
                    profile.tictactoe_losses = profile.tictactoe_losses + 1;
                    profile.xp = profile.xp + 10;
                }
                profile.level = Self::calculate_level(profile.xp);
                proof {
                    assert(profile@ =~= ttt_profile_step(old(self)@.users[address@], won));
                }
                self.users.insert(address, profile);
            },
            None => {},
        }
        proof {
            assert(self@ =~= update_tictactoe_step(old(self)@, address@, won));
        }
    }

    /// Creates a room for `creator` and returns its id, which is derived
    /// from the game category and the creation time.
    pub fn create_room(
        &mut self,
        game_type: GameType,
        creator: &String,
        max_players: u8,
        entry_fee: u64,
        now: u64,
    ) -> (room_id: String)
        requires
            old(self).wf(),
            max_players >= 1,
        ensures
            final(self).wf(),
            room_id@ == room_id_of(game_type, now),
            final(self)@ == create_room_step(
                old(self)@,
                game_type,
                creator@,
                max_players,
                entry_fee,
                now,
            ),
    {
        let room_id = names::make_room_id(game_type, now);
        let mut players: Vec<String> = Vec::new();
        players.push(creator.clone());
        let room = GameRoom {
            room_id: room_id.clone(),
            game_type,
            creator: creator.clone(),
            players,
            max_players,
            entry_fee,
            status: RoomStatus::Waiting,
            game_state: None,
            created_at: now,
        };
        proof {
            assert(room@ =~= new_room(game_type, creator@, max_players, entry_fee, now));
        }
        self.rooms.insert(&room_id, room);
        proof {
            assert(self@ =~= create_room_step(
                old(self)@,
                game_type,
                creator@,
                max_players,
                entry_fee,
                now,
            ));
        }
        room_id
    }

    /// Seats `player` in the room, silently doing nothing when the room
    /// does not exist or is already at capacity.  The join that fills the
    /// last seat sets the status to `InProgress` in the same update, so no
    /// state ever shows the room full and still `Waiting` because of a join.
    pub fn join_room(&mut self, room_id: &String, player: &String)
        requires
            old(self).wf(),
        ensures
            final(self).wf(),
            final(self)@ == join_room_step(old(self)@, room_id@, player@),
    {
        let found = self.rooms.get(room_id);
        match found {
            Some(r) => {
                if r.players.len() < r.max_players as usize {
                    let mut room = r.clone();
                    room.players.push(player.clone());
                    if room.players.len() == room.max_players as usize {
                        room.status = RoomStatus::InProgress;
                    }
                    proof {
                        let rv = old(self)@.rooms[room_id@];
                        assert(room@ =~= (RoomV {
                            players: rv.players.push(player@),
                            status: if rv.players.push(player@).len() == rv.max_players as nat {
                                RoomStatus::InProgress
                            } else {
                                rv.status
                            },
                            ..rv
                        }));
                    }
                    self.rooms.insert(room_id, room);
                    proof {
                        assert(self@ =~= join_room_step(old(self)@, room_id@, player@));
                    }
                } else {
                    proof {
                        assert(self@ =~= join_room_step(old(self)@, room_id@, player@));
                    }
                }
            },
            None => {
                proof {
                    assert(self@ =~= join_room_step(old(self)@, room_id@, player@));
                }
            },
        }
    }

    /// Declared extension point for in-game moves: move legality, session
    /// mutation and win detection are out of scope, so the state is left
    /// unchanged.
    pub fn submit_move(&mut self, _room_id: &String, _move_data: &Vec<u8>)
        requires
            old(self).wf(),
        ensures
            final(self).wf(),
            final(self)@ == old(self)@,
    {
    }

    /// Dispatches one mutating action on behalf of `owner` (an opaque
    /// address string supplied, not validated, by the hosting environment)
    /// at time `now`: exactly the transition [`execute_step`] describes.
    pub fn execute_operation(&mut self, owner: &String, operation: Operation, now: u64)
        requires
            old(self).wf(),
            operation_fits(old(self)@, owner@, operation),
        ensures
            final(self).wf(),
            final(self)@ == execute_step(old(self)@, owner@, operation, now),
    {
        match operation {
            Operation::SubmitSnakeScore { score } => {
                let _profile = self.get_or_create_user(owner);
                let _is_new_high = self.update_snake_score(owner, score, now);
            },
            Operation::SubmitTicTacToeResult { won, opponent } => {
                let _profile = self.get_or_create_user(owner);
                self.update_tictactoe_result(owner, won);
                match opponent {
                    Some(opp) => {
                        let _opp_profile = self.get_or_create_user(&opp);
                        self.update_tictactoe_result(&opp, !won);
                    },
                    None => {},
                }
                self.total_games_played = self.total_games_played + 1;
            },
            Operation::UpdateProfile { username, avatar_id } => {
                self.update_profile(owner, username, avatar_id);
            },
            Operation::CreateRoom { game_type, max_players, entry_fee } => {
                let _room_id = self.create_room(game_type, owner, max_players, entry_fee, now);
            },
            Operation::JoinRoom { room_id } => {
                self.join_room(&room_id, owner);
            },
            Operation::SubmitMove { room_id, move_data } => {
                self.submit_move(&room_id, &move_data);
            },
        }
    }

    /// The stored profile of a player, if any.
    pub fn user_profile(&self, address: &String) -> (r: Option<UserProfile>)
        requires
            self.wf(),
        ensures
            match r {
                Some(p) => self@.users.contains_key(address@) && p@ == self@.users[address@],
                None => !self@.users.contains_key(address@),
            },
    {
        match self.users.get(address) {
            Some(p) => Some(p.clone()),
            None => None,
        }
    }

    /// A player's snake high score; zero when none is stored.
    pub fn snake_high_score(&self, address: &String) -> (r: u32)
        requires
            self.wf(),
        ensures
            r == snake_high_of(self@.snake_high_scores, address@),
    {
        match self.snake_high_scores.get(address) {
            Some(h) => *h,
            None => 0,
        }
    }

    /// Total games played across all players.
    pub fn total_games(&self) -> (r: u64)
        ensures
            r == self@.total_games_played,
    {
        self.total_games_played
    }

    /// Total registered players.
    pub fn total_players(&self) -> (r: u64)
        ensures
            r == self@.total_players,
    {
        self.total_players
    }

    /// Details of a room; `None` exactly when the id is unknown.
    pub fn room(&self, room_id: &String) -> (r: Option<RoomInfo>)
        requires
            self.wf(),
        ensures
            match r {
                Some(info) => self@.rooms.contains_key(room_id@) && {
                    let rv = self@.rooms[room_id@];
                    &&& info.room_id@ == rv.room_id
                    &&& info.game_type@ == game_type_name(rv.game_type)
                    &&& info.player_count == rv.players.len()
                    &&& info.max_players == rv.max_players as u32
                    &&& info.status@ == room_status_name(rv.status)
                },
                None => !self@.rooms.contains_key(room_id@),
            },
    {
        match self.rooms.get(room_id) {
            Some(room) => {
                proof {
                    assert(self@.rooms[room_id@].wf());
                    assert(room.players@.len() <= 255);
                }
                Some(
                    RoomInfo {
                        room_id: room.room_id.clone(),
                        game_type: String::from_str(names::game_type_name_str(room.game_type)),
                        player_count: room.players.len() as u32,
                        max_players: room.max_players as u32,
                        status: String::from_str(names::room_status_name_str(room.status)),
                    },
                )
            },
            None => None,
        }
    }

    /// Station-wide statistics: both global counters and the fixed count of
    /// supported game categories.
    pub fn global_stats(&self) -> (r: GlobalStats)
        ensures
            r.total_games == self@.total_games_played,
            r.total_players == self@.total_players,
            r.games_available == 4,
    {
        GlobalStats {
            total_games: self.total_games_played,
            total_players: self.total_players,
            games_available: 4,
        }
    }

    /// Room enumeration is not part of the read surface; the answer is
    /// always empty, whatever the filter.
    pub fn active_rooms(&self, _game_type: Option<String>) -> (r: Vec<RoomInfo>)
        ensures
            r@.len() == 0,
    {
        Vec::new()
    }

    /// The leaderboard query: the first `limit` entries of the category's
    /// stored (already sorted) leaderboard, ten when no limit is given.
    pub fn leaderboard(&self, game_type: &String, limit: Option<u32>) -> (r: Vec<LeaderboardEntry>)
        requires
            self.wf(),
        ensures
            ({
                let l = match limit {
                    Some(x) => x,
                    None => 10u32,
                };
                r.deep_view() == (if (l as nat) < lb_of(self@.leaderboards, game_type@).len() {
                    lb_of(self@.leaderboards, game_type@).take(l as int)
                } else {
                    lb_of(self@.leaderboards, game_type@)
                })
            }),
    {
        let l = match limit {
            Some(x) => x,
            None => 10,
        };
        self.get_leaderboard(game_type, l)
    }

    /// The first `limit` entries of a category's leaderboard (all of them
    /// when fewer are stored); never re-sorts.
    pub fn get_leaderboard(&self, game_type: &String, limit: u32) -> (r: Vec<LeaderboardEntry>)
        requires
            self.wf(),
        ensures
            r.deep_view() == (if (limit as nat) < lb_of(self@.leaderboards, game_type@).len() {
                lb_of(self@.leaderboards, game_type@).take(limit as int)
            } else {
                lb_of(self@.leaderboards, game_type@)
            }),
    {
        let mut r: Vec<LeaderboardEntry> = Vec::new();
        match self.leaderboards.get(game_type) {
            Some(entries) => {
                let n = entries.len();
                let count = if (limit as usize) < n {
                    limit as usize
                } else {
                    n
                };
                let mut i: usize = 0;
                while i < count
                    invariant
                        count <= n == entries@.len(),
                        i <= count,
                        r@.len() == i,
                        forall|j: int| 0 <= j < i ==> r@[j]@ == entries@[j]@,
                    decreases count - i,
                {
                    r.push(entries[i].clone());
                    i = i + 1;
                }
                proof {
                    assert forall|j: int| 0 <= j < r@.len() implies r.deep_view()[j]
                        == entries.deep_view()[j] by {
                        assert(r@[j]@ == entries@[j]@);
                    }
                    if (limit as nat) < entries.deep_view().len() {
                        assert(r.deep_view() =~= entries.deep_view().take(limit as int));
                    } else {
                        assert(r.deep_view() =~= entries.deep_view());
                    }
                }
            },
            None => {
                proof {
                    assert(r.deep_view() =~= Seq::<LeaderboardEntryV>::empty());
                }
            },
        }
        r
    }
}

} // verus!
