//! Data model: game categories, per-game session payloads, leaderboard
//! entries, player profiles and the operation surface.
//!
//! Each record type with heap data carries a spec-level view (`...V`) over
//! `Seq` values, so that contracts can speak of record contents abstractly.

use vstd::prelude::*;
use crate::progression::level_of;

verus! {

/// Game categories supported by the station.
#[derive(Debug, Clone, Copy, PartialEq, Eq, Hash, Structural)]
pub enum GameType {
    Snake,
    TicTacToe,
    SnakeLadders,
    Uno,
}

/// Heading of the snake on the board.
#[derive(Debug, Clone, Copy, PartialEq, Eq, Structural)]
pub enum Direction {
    Up,
    Down,
    Left,
    Right,
}

/// A cell on a game board.
#[derive(Debug, Clone, Copy, PartialEq, Eq, Structural)]
pub struct Position {
    pub x: i32,
    pub y: i32,
}

/// In-progress state of a snake game.
#[derive(Debug)]
pub struct SnakeGameState {
    pub snake: Vec<Position>,
    pub food: Position,
    pub direction: Direction,
    pub score: u32,
    pub is_alive: bool,
    pub speed: u32,
}

/// Spec-level view of [`SnakeGameState`].
#[verifier::ext_equal]
pub struct SnakeGameStateV {
    pub snake: Seq<Position>,
    pub food: Position,
    pub direction: Direction,
    pub score: u32,
    pub is_alive: bool,
    pub speed: u32,
}

impl DeepView for SnakeGameState {
    type V = SnakeGameStateV;

    open spec fn deep_view(&self) -> SnakeGameStateV {
        self.view()
    }
}

impl View for SnakeGameState {
    type V = SnakeGameStateV;

    open spec fn view(&self) -> SnakeGameStateV {
        SnakeGameStateV {
            snake: self.snake@,
            food: self.food,
            direction: self.direction,
            score: self.score,
            is_alive: self.is_alive,
            speed: self.speed,
        }
    }
}

/// The construction-time default of a snake session: a single-cell snake at
/// a fixed start, food at a second fixed cell, heading right, score zero,
/// alive, speed one.
pub open spec fn default_snake_state() -> SnakeGameStateV {
    SnakeGameStateV {
        snake: seq![Position { x: 10, y: 10 }],
        food: Position { x: 15, y: 15 },
        direction: Direction::Right,
        score: 0,
        is_alive: true,
        speed: 1,
    }
}

impl Default for SnakeGameState {
    fn default() -> (r: Self)
        ensures
            r@ == default_snake_state(),
    {
        let mut snake: Vec<Position> = Vec::new();
        snake.push(Position { x: 10, y: 10 });
        proof {
            assert(snake@ =~= seq![Position { x: 10, y: 10 }]);
        }
        let r = SnakeGameState {
            snake,
            food: Position { x: 15, y: 15 },
            direction: Direction::Right,
            score: 0,
            is_alive: true,
            speed: 1,
        };
        proof {
            assert(r@ =~= default_snake_state());
        }
        r
    }
}

impl Clone for SnakeGameState {
    fn clone(&self) -> (r: Self)
        ensures
            r@ == self@,
    {
        let mut snake: Vec<Position> = Vec::new();
        let mut i: usize = 0;
        while i < self.snake.len()
            invariant
                i <= self.snake.len(),
                snake@ =~= self.snake@.take(i as int),
            decreases self.snake.len() - i,
        {
            snake.push(self.snake[i]);
            i = i + 1;
        }
        proof {
            assert(snake@ =~= self.snake@);
        }
        let r = SnakeGameState {
            snake,
            food: self.food,
            direction: self.direction,
            score: self.score,
            is_alive: self.is_alive,
            speed: self.speed,
        };
        proof {
            assert(r@ =~= self@);
        }
        r
    }
}

/// Mark placed by a tic-tac-toe player.
#[derive(Debug, Clone, Copy, PartialEq, Eq, Structural)]
pub enum PlayerMark {
    X,
    O,
}

/// In-progress state of a tic-tac-toe game.  Participants are identified by
/// the same opaque address strings the rest of the engine uses.
#[derive(Debug)]
pub struct TicTacToeState {
    pub board: [[Option<PlayerMark>; 3]; 3],
    pub current_turn: PlayerMark,
    pub winner: Option<PlayerMark>,
    pub player_x: Option<String>,
    pub player_o: Option<String>,
    pub move_count: u8,
}

/// Spec-level view of [`TicTacToeState`].
#[verifier::ext_equal]
pub struct TicTacToeStateV {
    pub board: Seq<Seq<Option<PlayerMark>>>,
    pub current_turn: PlayerMark,
    pub winner: Option<PlayerMark>,
    pub player_x: Option<Seq<char>>,
    pub player_o: Option<Seq<char>>,
    pub move_count: u8,
}

/// View of an optional address string.
pub open spec fn opt_str_view(s: Option<String>) -> Option<Seq<char>> {
    match s {
        Some(x) => Some(x@),
        None => None,
    }
}

impl DeepView for TicTacToeState {
    type V = TicTacToeStateV;

    open spec fn deep_view(&self) -> TicTacToeStateV {
        self.view()
    }
}

impl View for TicTacToeState {
    type V = TicTacToeStateV;

    open spec fn view(&self) -> TicTacToeStateV {
        TicTacToeStateV {
            board: self.board@.map_values(|row: [Option<PlayerMark>; 3]| row@),
            current_turn: self.current_turn,
            winner: self.winner,
            player_x: opt_str_view(self.player_x),
            player_o: opt_str_view(self.player_o),
            move_count: self.move_count,
        }
    }
}

/// The construction-time default of a tic-tac-toe session: an empty 3-by-3
/// board, `X` to move first, no winner, no seated players, zero moves.
pub open spec fn default_tictactoe_state() -> TicTacToeStateV {
    TicTacToeStateV {
        board: Seq::new(3, |i: int| Seq::new(3, |j: int| None)),
        current_turn: PlayerMark::X,
        winner: None,
        player_x: None,
        player_o: None,
        move_count: 0,
    }
}

impl Default for TicTacToeState {
    fn default() -> (r: Self)
        ensures
            r@ == default_tictactoe_state(),
    {
        let r = TicTacToeState {
            board: [[None, None, None], [None, None, None], [None, None, None]],
            current_turn: PlayerMark::X,
            winner: None,
            player_x: None,
            player_o: None,
            move_count: 0,
        };
        proof {
            assert forall|i: int| 0 <= i < 3 implies r@.board[i] =~= default_tictactoe_state().board[i] by {
            }
            assert(r@.board =~= default_tictactoe_state().board);
            assert(r@ =~= default_tictactoe_state());
        }
        r
    }
}

/// Clones an optional address string.
fn clone_opt_string(s: &Option<String>) -> (r: Option<String>)
    ensures
        opt_str_view(r) == opt_str_view(*s),
{
    match s {
        Some(x) => Some(x.clone()),
        None => None,
    }
}

impl Clone for TicTacToeState {
    fn clone(&self) -> (r: Self)
        ensures
            r@ == self@,
    {
        let r = TicTacToeState {
            board: self.board,
            current_turn: self.current_turn,
            winner: self.winner,
            player_x: clone_opt_string(&self.player_x),
            player_o: clone_opt_string(&self.player_o),
            move_count: self.move_count,
        };
        proof {
            assert(r@ =~= self@);
        }
        r
    }
}

/// Session payload embedded in a room, one variant per game with in-game
/// state.  A closed sum: consumers match on it exhaustively.
#[derive(Debug)]
pub enum GameState {
    Snake(SnakeGameState),
    TicTacToe(TicTacToeState),
}

/// Spec-level view of [`GameState`].
pub enum GameStateV {
    Snake(SnakeGameStateV),
    TicTacToe(TicTacToeStateV),
}

impl DeepView for GameState {
    type V = GameStateV;

    open spec fn deep_view(&self) -> GameStateV {
        self.view()
    }
}

impl View for GameState {
    type V = GameStateV;

    open spec fn view(&self) -> GameStateV {
        match self {
            GameState::Snake(s) => GameStateV::Snake(s@),
            GameState::TicTacToe(t) => GameStateV::TicTacToe(t@),
        }
    }
}

impl Clone for GameState {
    fn clone(&self) -> (r: Self)
        ensures
            r@ == self@,
    {
        match self {
            GameState::Snake(s) => GameState::Snake(s.clone()),
            GameState::TicTacToe(t) => GameState::TicTacToe(t.clone()),
        }
    }
}

/// Lifecycle status of a room: only forward transitions
/// (`Waiting` to `InProgress` to `Finished`) ever occur.
#[derive(Debug, Clone, Copy, PartialEq, Eq, Structural)]
pub enum RoomStatus {
    Waiting,
    InProgress,
    Finished,
}

/// One row of a category leaderboard.
#[derive(Debug)]
pub struct LeaderboardEntry {
    pub player_name: String,
    pub player_address: String,
    pub score: u64,
    pub games_played: u32,
    pub win_rate: u32,
    pub timestamp: u64,
}

/// Spec-level view of [`LeaderboardEntry`].
#[verifier::ext_equal]
pub struct LeaderboardEntryV {
    pub player_name: Seq<char>,
    pub player_address: Seq<char>,
    pub score: u64,
    pub games_played: u32,
    pub win_rate: u32,
    pub timestamp: u64,
}

impl DeepView for LeaderboardEntry {
    type V = LeaderboardEntryV;

    open spec fn deep_view(&self) -> LeaderboardEntryV {
        self.view()
    }
}

impl View for LeaderboardEntry {
    type V = LeaderboardEntryV;

    open spec fn view(&self) -> LeaderboardEntryV {
        LeaderboardEntryV {
            player_name: self.player_name@,
            player_address: self.player_address@,
            score: self.score,
            games_played: self.games_played,
            win_rate: self.win_rate,
            timestamp: self.timestamp,
        }
    }
}

impl Clone for LeaderboardEntry {
    fn clone(&self) -> (r: Self)
        ensures
            r@ == self@,
    {
        let r = LeaderboardEntry {
            player_name: self.player_name.clone(),
            player_address: self.player_address.clone(),
            score: self.score,
            games_played: self.games_played,
            win_rate: self.win_rate,
            timestamp: self.timestamp,
        };
        proof {
            assert(r@ =~= self@);
        }
        r
    }
}

/// A player's persistent record: display fields and cumulative statistics.
/// The `level` field is always the progression of `xp`.
#[derive(Debug)]
pub struct UserProfile {
    pub username: String,
    pub avatar_id: u8,
    pub level: u32,
    pub xp: u64,
    pub snake_high_score: u32,
    pub snake_games: u32,
    pub tictactoe_wins: u32,
    pub tictactoe_losses: u32,
    pub total_tokens_won: u64,
}

/// Spec-level view of [`UserProfile`].
#[verifier::ext_equal]
pub struct UserProfileV {
    pub username: Seq<char>,
    pub avatar_id: u8,
    pub level: u32,
    pub xp: u64,
    pub snake_high_score: u32,
    pub snake_games: u32,
    pub tictactoe_wins: u32,
    pub tictactoe_losses: u32,
    pub total_tokens_won: u64,
}

impl UserProfileV {
    /// A profile is well formed when its level is derived from its xp.
    pub open spec fn wf(self) -> bool {
        self.level == level_of(self.xp)
    }
}

impl DeepView for UserProfile {
    type V = UserProfileV;

    open spec fn deep_view(&self) -> UserProfileV {
        self.view()
    }
}

impl View for UserProfile {
    type V = UserProfileV;

    open spec fn view(&self) -> UserProfileV {
        UserProfileV {
            username: self.username@,
            avatar_id: self.avatar_id,
            level: self.level,
            xp: self.xp,
            snake_high_score: self.snake_high_score,
            snake_games: self.snake_games,
            tictactoe_wins: self.tictactoe_wins,
            tictactoe_losses: self.tictactoe_losses,
            total_tokens_won: self.total_tokens_won,
        }
    }
}

/// The profile a player gets on first touch: empty display fields, level
/// one, every counter zero.
pub open spec fn default_profile() -> UserProfileV {
    UserProfileV {
        username: Seq::empty(),
        avatar_id: 0,
        level: 1,
        xp: 0,
        snake_high_score: 0,
        snake_games: 0,
        tictactoe_wins: 0,
        tictactoe_losses: 0,
        total_tokens_won: 0,
    }
}

/// The default profile is well formed: zero xp confers level one.
pub proof fn lemma_default_profile_wf()
    ensures
        default_profile().wf(),
{
    assert(crate::progression::is_isqrt_of(0, 0)) by (nonlinear_arith);
    crate::progression::lemma_isqrt_unique(0, 0);
}

impl Default for UserProfile {
    fn default() -> (r: Self)
        ensures
            r@ == default_profile(),
            r@.wf(),
    {
        proof {
            lemma_default_profile_wf();
        }
        let r = UserProfile {
            username: String::new(),
            avatar_id: 0,
            level: 1,
            xp: 0,
            snake_high_score: 0,
            snake_games: 0,
            tictactoe_wins: 0,
            tictactoe_losses: 0,
            total_tokens_won: 0,
        };
        proof {
            assert(r@ =~= default_profile());
        }
        r
    }
}

impl Clone for UserProfile {
    fn clone(&self) -> (r: Self)
        ensures
            r@ == self@,
    {
        let r = UserProfile {
            username: self.username.clone(),
            avatar_id: self.avatar_id,
            level: self.level,
            xp: self.xp,
            snake_high_score: self.snake_high_score,
            snake_games: self.snake_games,
            tictactoe_wins: self.tictactoe_wins,
            tictactoe_losses: self.tictactoe_losses,
            total_tokens_won: self.total_tokens_won,
        };
        proof {
            assert(r@ =~= self@);
        }
        r
    }
}

/// The mutating action surface: a fixed, closed set of operation variants
/// dispatched by the engine.
#[derive(Debug)]
pub enum Operation {
    /// Submit a snake game score.
    SubmitSnakeScore { score: u32 },
    /// Submit a tic-tac-toe game result.
    SubmitTicTacToeResult { won: bool, opponent: Option<String> },
    /// Overwrite the caller's display name and avatar.
    UpdateProfile { username: String, avatar_id: u8 },
    /// Create a new game room.
    CreateRoom { game_type: GameType, max_players: u8, entry_fee: u64 },
    /// Join an existing room.
    JoinRoom { room_id: String },
    /// Submit a move in a multiplayer game (declared extension point;
    /// move handling is out of scope and the engine leaves state unchanged).
    SubmitMove { room_id: String, move_data: Vec<u8> },
}

/// Cross-node notifications relayed by the hosting environment.  The engine
/// records nothing on receipt; the type is part of the public surface.
#[derive(Debug)]
pub enum Message {
    /// A player joined a room.
    PlayerJoined { room_id: String, player: String },
    /// A game move was broadcast.
    GameMove { room_id: String, player: String, move_data: Vec<u8> },
    /// A game ended.
    GameEnded { room_id: String, winner: Option<String>, scores: Vec<(String, u64)> },
    /// A leaderboard changed.
    LeaderboardUpdate { game_type: GameType, entry: LeaderboardEntry },
}

/// Query input for the leaderboard read surface.
#[derive(Debug)]
pub struct LeaderboardQuery {
    pub game_type: Option<GameType>,
    pub limit: Option<u32>,
    pub time_filter: Option<String>,
}

} // verus!
