//! Behavioral tests for profiles, progression, score submissions and
//! leaderboards.

use game_station::state::GameStationState;
use game_station::types::{GameType, LeaderboardQuery, Operation};

fn s(x: &str) -> String {
    x.to_string()
}

#[test]
fn new_player_profile_defaults() {
    let mut st = GameStationState::new();
    let p = st.get_or_create_user(&s("player-one-address"));
    assert_eq!(p.username, "");
    assert_eq!(p.avatar_id, 0);
    assert_eq!(p.level, 1);
    assert_eq!(p.xp, 0);
    assert_eq!(p.snake_high_score, 0);
    assert_eq!(p.snake_games, 0);
    assert_eq!(p.tictactoe_wins, 0);
    assert_eq!(p.tictactoe_losses, 0);
    assert_eq!(p.total_tokens_won, 0);
    assert_eq!(st.total_players(), 1);
}

#[test]
fn get_or_create_counts_each_player_once() {
    let mut st = GameStationState::new();
    st.get_or_create_user(&s("alice-address"));
    st.get_or_create_user(&s("alice-address"));
    assert_eq!(st.total_players(), 1);
    st.get_or_create_user(&s("bob-address"));
    assert_eq!(st.total_players(), 2);
    st.get_or_create_user(&s("bob-address"));
    assert_eq!(st.total_players(), 2);
}

#[test]
fn update_profile_sets_display_fields_only() {
    let mut st = GameStationState::new();
    let a = s("alice-address");
    st.get_or_create_user(&a);
    st.update_snake_score(&a, 400, 7);
    st.update_profile(&a, s("Alice"), 3);
    let p = st.user_profile(&a).unwrap();
    assert_eq!(p.username, "Alice");
    assert_eq!(p.avatar_id, 3);
    assert_eq!(p.xp, 400);
    assert_eq!(p.level, 3);
    assert_eq!(p.snake_games, 1);
    assert_eq!(p.snake_high_score, 400);
    assert_eq!(st.total_players(), 1);
}

#[test]
fn snake_score_four_hundred_gives_level_three() {
    let mut st = GameStationState::new();
    let a = s("alice-address");
    st.execute_operation(&a, Operation::SubmitSnakeScore { score: 400 }, 7);
    let p = st.user_profile(&a).unwrap();
    assert_eq!(p.xp, 400);
    assert_eq!(p.level, 3);
    assert_eq!(p.snake_high_score, 400);
    assert_eq!(p.snake_games, 1);
    assert_eq!(st.snake_high_score(&a), 400);
}

#[test]
fn snake_new_high_reported_exactly_when_exceeding() {
    let mut st = GameStationState::new();
    let a = s("alice-address");
    st.get_or_create_user(&a);
    assert!(st.update_snake_score(&a, 400, 1));
    assert!(!st.update_snake_score(&a, 400, 2));
    assert!(!st.update_snake_score(&a, 300, 3));
    assert!(st.update_snake_score(&a, 401, 4));
    assert_eq!(st.snake_high_score(&a), 401);
}

#[test]
fn snake_lower_score_grants_tenth_of_score() {
    let mut st = GameStationState::new();
    let a = s("alice-address");
    st.get_or_create_user(&a);
    st.update_snake_score(&a, 400, 1);
    st.update_snake_score(&a, 305, 2);
    let p = st.user_profile(&a).unwrap();
    assert_eq!(p.xp, 400 + 30);
    assert_eq!(p.snake_games, 2);
    assert_eq!(p.snake_high_score, 400);
    assert_eq!(st.snake_high_score(&a), 400);
}

#[test]
fn snake_high_score_absent_reads_zero() {
    let st = GameStationState::new();
    assert_eq!(st.snake_high_score(&s("nobody")), 0);
}

#[test]
fn user_profile_absent_is_none() {
    let st = GameStationState::new();
    assert!(st.user_profile(&s("nobody")).is_none());
}

#[test]
fn tictactoe_win_with_opponent_counts_one_game() {
    let mut st = GameStationState::new();
    let a = s("alice-address");
    let b = s("bob-address");
    st.execute_operation(
        &a,
        Operation::SubmitTicTacToeResult { won: true, opponent: Some(b.clone()) },
        1,
    );
    let pa = st.user_profile(&a).unwrap();
    assert_eq!(pa.xp, 50);
    assert_eq!(pa.tictactoe_wins, 1);
    assert_eq!(pa.tictactoe_losses, 0);
    let pb = st.user_profile(&b).unwrap();
    assert_eq!(pb.xp, 10);
    assert_eq!(pb.tictactoe_wins, 0);
    assert_eq!(pb.tictactoe_losses, 1);
    assert_eq!(st.total_games(), 1);
    assert_eq!(st.total_players(), 2);
}

#[test]
fn tictactoe_loss_without_opponent() {
    let mut st = GameStationState::new();
    let a = s("alice-address");
    st.execute_operation(&a, Operation::SubmitTicTacToeResult { won: false, opponent: None }, 1);
    let p = st.user_profile(&a).unwrap();
    assert_eq!(p.xp, 10);
    assert_eq!(p.tictactoe_losses, 1);
    assert_eq!(p.tictactoe_wins, 0);
    assert_eq!(p.level, 1);
    assert_eq!(st.total_games(), 1);
}

#[test]
fn leaderboard_sorted_non_increasing() {
    let mut st = GameStationState::new();
    let players = [
        ("player-one-address", 10u32),
        ("player-two-address", 50),
        ("player-three-addr", 30),
        ("player-four-address", 20),
        ("player-five-address", 40),
    ];
    for (addr, score) in players.iter() {
        let a = s(addr);
        st.get_or_create_user(&a);
        st.update_snake_score(&a, *score, 5);
    }
    let lb = st.get_leaderboard(&s("snake"), 100);
    assert_eq!(lb.len(), 5);
    let scores: Vec<u64> = lb.iter().map(|e| e.score).collect();
    assert_eq!(scores, vec![50, 40, 30, 20, 10]);
    assert_eq!(lb[0].player_address, "player-two-address");
    for e in lb.iter() {
        assert_eq!(e.games_played, 1);
        assert_eq!(e.win_rate, 100);
        assert_eq!(e.timestamp, 5);
    }
}

#[test]
fn leaderboard_bump_keeps_single_entry() {
    let mut st = GameStationState::new();
    let a = s("alice-address");
    st.get_or_create_user(&a);
    st.update_snake_score(&a, 10, 1);
    st.update_snake_score(&a, 50, 2);
    let lb = st.get_leaderboard(&s("snake"), 100);
    assert_eq!(lb.len(), 1);
    assert_eq!(lb[0].score, 50);
    assert_eq!(lb[0].games_played, 2);
    assert_eq!(lb[0].timestamp, 2);
}

#[test]
fn leaderboard_untouched_by_lower_score() {
    let mut st = GameStationState::new();
    let a = s("alice-address");
    st.get_or_create_user(&a);
    st.update_snake_score(&a, 50, 1);
    st.update_snake_score(&a, 10, 2);
    let lb = st.get_leaderboard(&s("snake"), 100);
    assert_eq!(lb.len(), 1);
    assert_eq!(lb[0].score, 50);
    assert_eq!(lb[0].games_played, 1);
    assert_eq!(lb[0].timestamp, 1);
}

#[test]
fn leaderboard_truncates_to_top_hundred() {
    let mut st = GameStationState::new();
    for i in 1..=105u32 {
        let a = format!("player-address-{:03}", i);
        st.get_or_create_user(&a);
        st.update_snake_score(&a, i, 9);
    }
    let lb = st.get_leaderboard(&s("snake"), 200);
    assert_eq!(lb.len(), 100);
    assert_eq!(lb[0].score, 105);
    assert_eq!(lb[99].score, 6);
    for w in lb.windows(2) {
        assert!(w[0].score >= w[1].score);
    }
}

#[test]
fn leaderboard_query_default_limit_is_ten() {
    let mut st = GameStationState::new();
    for i in 1..=15u32 {
        let a = format!("player-address-{:03}", i);
        st.get_or_create_user(&a);
        st.update_snake_score(&a, i, 9);
    }
    assert_eq!(st.leaderboard(&s("snake"), None).len(), 10);
    assert_eq!(st.leaderboard(&s("snake"), Some(3)).len(), 3);
    assert_eq!(st.leaderboard(&s("snake"), Some(50)).len(), 15);
}

#[test]
fn leaderboard_query_parameters_drive_the_lookup() {
    let mut st = GameStationState::new();
    for i in 1..=8u32 {
        let a = format!("player-address-{:03}", i);
        st.get_or_create_user(&a);
        st.update_snake_score(&a, i, 9);
    }
    let q = LeaderboardQuery {
        game_type: Some(GameType::Snake),
        limit: Some(5),
        time_filter: None,
    };
    let category = match q.game_type {
        Some(GameType::Snake) => "snake".to_string(),
        _ => "other".to_string(),
    };
    let lb = st.leaderboard(&category, q.limit);
    assert_eq!(lb.len(), 5);
    assert_eq!(lb[0].score, 8);
}

#[test]
fn leaderboard_of_unknown_category_is_empty() {
    let st = GameStationState::new();
    assert!(st.get_leaderboard(&s("snake"), 10).is_empty());
    assert!(st.leaderboard(&s("tictactoe"), None).is_empty());
}

#[test]
fn leaderboard_name_falls_back_to_address_prefix() {
    let mut st = GameStationState::new();
    let long = s("abcdefghij");
    st.get_or_create_user(&long);
    st.update_snake_score(&long, 10, 1);
    let short = s("abc");
    st.get_or_create_user(&short);
    st.update_snake_score(&short, 20, 1);
    let lb = st.get_leaderboard(&s("snake"), 10);
    assert_eq!(lb[0].player_name, "abc");
    assert_eq!(lb[1].player_name, "abcdefgh");
}

#[test]
fn leaderboard_name_uses_profile_username() {
    let mut st = GameStationState::new();
    let a = s("alice-address");
    st.get_or_create_user(&a);
    st.update_profile(&a, s("Zed"), 1);
    st.update_snake_score(&a, 10, 1);
    let lb = st.get_leaderboard(&s("snake"), 10);
    assert_eq!(lb[0].player_name, "Zed");
}

#[test]
fn leaderboard_ties_keep_submission_order() {
    let mut st = GameStationState::new();
    let p1 = s("player-one-address");
    let p2 = s("player-two-address");
    st.get_or_create_user(&p1);
    st.update_snake_score(&p1, 50, 1);
    st.get_or_create_user(&p2);
    st.update_snake_score(&p2, 50, 2);
    let lb = st.get_leaderboard(&s("snake"), 10);
    assert_eq!(lb.len(), 2);
    assert_eq!(lb[0].player_address, "player-one-address");
    assert_eq!(lb[1].player_address, "player-two-address");
}

#[test]
fn leaderboard_bump_to_tie_lands_after_equal_score() {
    let mut st = GameStationState::new();
    let p1 = s("player-one-address");
    let p2 = s("player-two-address");
    st.get_or_create_user(&p1);
    st.update_snake_score(&p1, 50, 1);
    st.get_or_create_user(&p2);
    st.update_snake_score(&p2, 30, 2);
    st.update_snake_score(&p2, 50, 3);
    let lb = st.get_leaderboard(&s("snake"), 10);
    assert_eq!(lb.len(), 2);
    assert_eq!(lb[0].player_address, "player-one-address");
    assert_eq!(lb[1].player_address, "player-two-address");
    assert_eq!(lb[1].games_played, 2);
}

#[test]
fn xp_accumulates_across_games() {
    let mut st = GameStationState::new();
    let a = s("alice-address");
    st.execute_operation(&a, Operation::SubmitSnakeScore { score: 400 }, 1);
    st.execute_operation(&a, Operation::SubmitTicTacToeResult { won: true, opponent: None }, 2);
    let p = st.user_profile(&a).unwrap();
    assert_eq!(p.xp, 450);
    assert_eq!(p.level, 3);
    assert_eq!(p.snake_games, 1);
    assert_eq!(p.tictactoe_wins, 1);
}

#[test]
fn update_profile_through_operation() {
    let mut st = GameStationState::new();
    let a = s("alice-address");
    st.execute_operation(
        &a,
        Operation::UpdateProfile { username: s("Alice"), avatar_id: 7 },
        1,
    );
    let p = st.user_profile(&a).unwrap();
    assert_eq!(p.username, "Alice");
    assert_eq!(p.avatar_id, 7);
    assert_eq!(st.total_players(), 1);
}

#[test]
fn level_formula_exact_values() {
    assert_eq!(GameStationState::calculate_level(0), 1);
    assert_eq!(GameStationState::calculate_level(99), 1);
    assert_eq!(GameStationState::calculate_level(100), 2);
    assert_eq!(GameStationState::calculate_level(399), 2);
    assert_eq!(GameStationState::calculate_level(400), 3);
    assert_eq!(GameStationState::calculate_level(2500), 6);
    assert_eq!(GameStationState::calculate_level(10_000), 11);
    assert_eq!(GameStationState::calculate_level(1_000_000), 101);
    assert_eq!(GameStationState::calculate_level(u64::MAX), 429_496_730);
}

#[test]
fn level_updates_with_each_submission() {
    let mut st = GameStationState::new();
    let a = s("alice-address");
    st.get_or_create_user(&a);
    st.update_snake_score(&a, 90, 1);
    assert_eq!(st.user_profile(&a).unwrap().level, 1);
    st.update_snake_score(&a, 95, 2);
    // xp is now 90 + 95 = 185.
    assert_eq!(st.user_profile(&a).unwrap().xp, 185);
    assert_eq!(st.user_profile(&a).unwrap().level, 2);
}

#[test]
fn global_stats_reports_counters_and_category_count() {
    let mut st = GameStationState::new();
    let a = s("alice-address");
    st.execute_operation(&a, Operation::SubmitTicTacToeResult { won: true, opponent: None }, 1);
    st.execute_operation(&a, Operation::SubmitSnakeScore { score: 42 }, 2);
    let g = st.global_stats();
    assert_eq!(g.total_games, 1);
    assert_eq!(g.total_players, 1);
    assert_eq!(g.games_available, 4);
}

#[test]
fn active_rooms_query_is_empty() {
    let st = GameStationState::new();
    assert!(st.active_rooms(None).is_empty());
    assert!(st.active_rooms(Some(s("Snake"))).is_empty());
}
