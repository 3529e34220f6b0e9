//! Behavioral tests for room lifecycle and the session-state defaults.

use game_station::state::GameStationState;
use game_station::types::{
    Direction, GameType, Operation, PlayerMark, SnakeGameState, TicTacToeState,
};

fn s(x: &str) -> String {
    x.to_string()
}

#[test]
fn create_room_starts_waiting_with_creator_seated() {
    let mut st = GameStationState::new();
    let a = s("alice-address");
    let id = st.create_room(GameType::Snake, &a, 2, 0, 12345);
    assert_eq!(id, "Snake-12345");
    let info = st.room(&id).unwrap();
    assert_eq!(info.room_id, "Snake-12345");
    assert_eq!(info.game_type, "Snake");
    assert_eq!(info.player_count, 1);
    assert_eq!(info.max_players, 2);
    assert_eq!(info.status, "Waiting");
}

#[test]
fn filling_join_flips_status_to_in_progress() {
    let mut st = GameStationState::new();
    let a = s("alice-address");
    let b = s("bob-address");
    let id = st.create_room(GameType::Snake, &a, 2, 0, 12345);
    st.join_room(&id, &b);
    let info = st.room(&id).unwrap();
    assert_eq!(info.player_count, 2);
    assert_eq!(info.status, "InProgress");
}

#[test]
fn join_below_capacity_stays_waiting() {
    let mut st = GameStationState::new();
    let a = s("alice-address");
    let id = st.create_room(GameType::Uno, &a, 3, 5, 1);
    st.join_room(&id, &s("bob-address"));
    let info = st.room(&id).unwrap();
    assert_eq!(info.player_count, 2);
    assert_eq!(info.status, "Waiting");
    st.join_room(&id, &s("carol-address"));
    let info = st.room(&id).unwrap();
    assert_eq!(info.player_count, 3);
    assert_eq!(info.status, "InProgress");
}

#[test]
fn join_full_room_is_silently_ignored() {
    let mut st = GameStationState::new();
    let a = s("alice-address");
    let id = st.create_room(GameType::Snake, &a, 2, 0, 7);
    st.join_room(&id, &s("bob-address"));
    st.join_room(&id, &s("carol-address"));
    let info = st.room(&id).unwrap();
    assert_eq!(info.player_count, 2);
    assert_eq!(info.status, "InProgress");
}

#[test]
fn join_unknown_room_is_silently_ignored() {
    let mut st = GameStationState::new();
    st.join_room(&s("Snake-999"), &s("bob-address"));
    assert!(st.room(&s("Snake-999")).is_none());
    assert_eq!(st.total_players(), 0);
}

#[test]
fn room_query_unknown_id_is_none() {
    let st = GameStationState::new();
    assert!(st.room(&s("TicTacToe-1")).is_none());
}

#[test]
fn room_id_derived_from_category_and_time() {
    let mut st = GameStationState::new();
    let a = s("alice-address");
    assert_eq!(st.create_room(GameType::Snake, &a, 2, 0, 0), "Snake-0");
    assert_eq!(
        st.create_room(GameType::TicTacToe, &a, 2, 0, 987654321),
        "TicTacToe-987654321"
    );
    assert_eq!(
        st.create_room(GameType::SnakeLadders, &a, 4, 1, 1000),
        "SnakeLadders-1000"
    );
}

#[test]
fn create_and_join_through_operations() {
    let mut st = GameStationState::new();
    let a = s("alice-address");
    let b = s("bob-address");
    st.execute_operation(
        &a,
        Operation::CreateRoom { game_type: GameType::Snake, max_players: 2, entry_fee: 0 },
        4242,
    );
    let id = s("Snake-4242");
    let info = st.room(&id).unwrap();
    assert_eq!(info.status, "Waiting");
    assert_eq!(info.player_count, 1);
    st.execute_operation(&b, Operation::JoinRoom { room_id: id.clone() }, 4300);
    let info = st.room(&id).unwrap();
    assert_eq!(info.status, "InProgress");
    assert_eq!(info.player_count, 2);
}

#[test]
fn submit_move_changes_nothing() {
    let mut st = GameStationState::new();
    let a = s("alice-address");
    let id = st.create_room(GameType::Snake, &a, 2, 0, 7);
    st.execute_operation(
        &a,
        Operation::SubmitMove { room_id: id.clone(), move_data: vec![1, 2, 3] },
        8,
    );
    let info = st.room(&id).unwrap();
    assert_eq!(info.player_count, 1);
    assert_eq!(info.status, "Waiting");
    assert_eq!(st.total_games(), 0);
    assert_eq!(st.total_players(), 0);
}

#[test]
fn snake_session_default() {
    let g = SnakeGameState::default();
    assert_eq!(g.snake.len(), 1);
    assert_eq!(g.snake[0].x, 10);
    assert_eq!(g.snake[0].y, 10);
    assert_eq!(g.food.x, 15);
    assert_eq!(g.food.y, 15);
    assert_eq!(g.direction, Direction::Right);
    assert_eq!(g.score, 0);
    assert!(g.is_alive);
    assert_eq!(g.speed, 1);
}

#[test]
fn tictactoe_session_default() {
    let g = TicTacToeState::default();
    for row in g.board.iter() {
        for cell in row.iter() {
            assert!(cell.is_none());
        }
    }
    assert_eq!(g.current_turn, PlayerMark::X);
    assert!(g.winner.is_none());
    assert!(g.player_x.is_none());
    assert!(g.player_o.is_none());
    assert_eq!(g.move_count, 0);
}
