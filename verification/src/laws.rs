//! Laws of the engine: properties that hold across sequences of calls and
//! across all states, stated and proved over the same step functions the
//! methods' contracts use.

use vstd::prelude::*;
use crate::leaderboard::{lb_sorted, MAX_ENTRIES};
use crate::progression::level_of;
use crate::state::{
    execute_step, get_or_create_step, join_room_step, lb_of, lemma_execute_step_wf,
    snake_high_of, GameStationStateV,
};
use crate::types::{Operation, RoomStatus};

verus! {

/// The state after a sequence of snake score submissions by one player,
/// applied first to last, each submission first ensuring the player's
/// profile exists, as the dispatcher does.
pub open spec fn apply_snake_submissions(
    s: GameStationStateV,
    owner: Seq<char>,
    scores: Seq<u32>,
    now: u64,
) -> GameStationStateV
    decreases scores.len(),
{
    if scores.len() == 0 {
        s
    } else {
        apply_snake_submissions(
            execute_step(s, owner, Operation::SubmitSnakeScore { score: scores[0] }, now),
            owner,
            scores.drop_first(),
            now,
        )
    }
}

/// The greatest score in a sequence; zero when the sequence is empty.
pub open spec fn seq_max_u32(scores: Seq<u32>) -> u32
    decreases scores.len(),
{
    if scores.len() == 0 {
        0
    } else {
        let m = seq_max_u32(scores.drop_first());
        if scores[0] > m {
            scores[0]
        } else {
            m
        }
    }
}

/// A submission of `score` by `owner` would report a new high in state `s`.
pub open spec fn snake_is_new_high(s: GameStationStateV, owner: Seq<char>, score: u32) -> bool {
    score > snake_high_of(s.snake_high_scores, owner)
}

/// One snake submission drives the stored high score to the maximum of the
/// old high and the submitted score.
proof fn lemma_snake_high_fold(
    s: GameStationStateV,
    owner: Seq<char>,
    scores: Seq<u32>,
    now: u64,
)
    ensures
        snake_high_of(apply_snake_submissions(s, owner, scores, now).snake_high_scores, owner)
            == (if seq_max_u32(scores) > snake_high_of(s.snake_high_scores, owner) {
            seq_max_u32(scores)
        } else {
            snake_high_of(s.snake_high_scores, owner)
        }),
    decreases scores.len(),
{
    if scores.len() > 0 {
        let s1 = execute_step(s, owner, Operation::SubmitSnakeScore { score: scores[0] }, now);
        assert(snake_high_of(s1.snake_high_scores, owner) == (if scores[0] > snake_high_of(
            s.snake_high_scores,
            owner,
        ) {
            scores[0]
        } else {
            snake_high_of(s.snake_high_scores, owner)
        }));
        lemma_snake_high_fold(s1, owner, scores.drop_first(), now);
    }
}

/// For every sequence of snake submissions by one player who has no stored
/// high score yet, the stored high score afterwards equals the maximum
/// score ever submitted, and a submission reports a new high exactly when
/// it strictly exceeds the maximum of all scores submitted before it.
pub proof fn lemma_snake_high_is_max(
    s: GameStationStateV,
    owner: Seq<char>,
    scores: Seq<u32>,
    now: u64,
)
    requires
        snake_high_of(s.snake_high_scores, owner) == 0,
    ensures
        snake_high_of(
            apply_snake_submissions(s, owner, scores, now).snake_high_scores,
            owner,
        ) == seq_max_u32(scores),
        forall|i: int|
            0 <= i < scores.len() ==> (snake_is_new_high(
                apply_snake_submissions(s, owner, scores.take(i), now),
                owner,
                scores[i],
            ) <==> scores[i] > seq_max_u32(scores.take(i))),
{
    lemma_snake_high_fold(s, owner, scores, now);
    assert forall|i: int| 0 <= i < scores.len() implies (snake_is_new_high(
        apply_snake_submissions(s, owner, scores.take(i), now),
        owner,
        scores[i],
    ) <==> scores[i] > seq_max_u32(scores.take(i))) by {
        lemma_snake_high_fold(s, owner, scores.take(i), now);
    }
}

/// Any sequence of snake submissions keeps the state well formed, so the
/// bounded, sorted, duplicate-free leaderboard shape and the exact
/// xp-derived levels hold after every prefix of the sequence.
pub proof fn lemma_snake_sequence_keeps_wf(
    s: GameStationStateV,
    owner: Seq<char>,
    scores: Seq<u32>,
    now: u64,
)
    requires
        s.wf(),
    ensures
        apply_snake_submissions(s, owner, scores, now).wf(),
    decreases scores.len(),
{
    if scores.len() > 0 {
        lemma_execute_step_wf(s, owner, Operation::SubmitSnakeScore { score: scores[0] }, now);
        lemma_snake_sequence_keeps_wf(
            execute_step(s, owner, Operation::SubmitSnakeScore { score: scores[0] }, now),
            owner,
            scores.drop_first(),
            now,
        );
    }
}

/// Creation on first touch is idempotent with respect to the player
/// counter: a player's first get-or-create moves the counter by exactly
/// one, and repeating it for the same player moves nothing at all.
pub proof fn lemma_get_or_create_idempotent(s: GameStationStateV, addr: Seq<char>)
    ensures
        s.users.contains_key(addr) ==> get_or_create_step(s, addr) == s,
        !s.users.contains_key(addr) ==> get_or_create_step(s, addr).total_players == (
        s.total_players + 1) as u64,
        get_or_create_step(get_or_create_step(s, addr), addr) == get_or_create_step(s, addr),
{
    assert(get_or_create_step(s, addr).users.contains_key(addr));
}

/// Joining a room that is already at capacity is a silent no-op: the
/// room's player list, its status, and the whole state are unchanged.
pub proof fn lemma_join_full_room_no_op(s: GameStationStateV, room_id: Seq<char>, player: Seq<
    char,
>)
    requires
        s.rooms.contains_key(room_id),
        s.rooms[room_id].players.len() >= s.rooms[room_id].max_players as nat,
    ensures
        join_room_step(s, room_id, player) == s,
{
}

/// The join that fills a room's last seat makes the room `InProgress` in
/// the same update that seats the player: the resulting state already shows
/// the room full and started, so no state a query can observe has the room
/// at capacity and still `Waiting` as the result of a join.
pub proof fn lemma_filling_join_starts_game(
    s: GameStationStateV,
    room_id: Seq<char>,
    player: Seq<char>,
)
    requires
        s.rooms.contains_key(room_id),
        s.rooms[room_id].players.len() + 1 == s.rooms[room_id].max_players as nat,
    ensures
        ({
            let r2 = join_room_step(s, room_id, player).rooms[room_id];
            &&& r2.players == s.rooms[room_id].players.push(player)
            &&& r2.players.len() == r2.max_players as nat
            &&& r2.status == RoomStatus::InProgress
        }),
{
}

/// A join that leaves seats free seats the player and changes nothing
/// else: the status only becomes `InProgress` through the join that fills
/// the last seat.
pub proof fn lemma_partial_join_keeps_status(
    s: GameStationStateV,
    room_id: Seq<char>,
    player: Seq<char>,
)
    requires
        s.rooms.contains_key(room_id),
        s.rooms[room_id].players.len() + 1 < s.rooms[room_id].max_players as nat,
    ensures
        ({
            let r2 = join_room_step(s, room_id, player).rooms[room_id];
            &&& r2.players == s.rooms[room_id].players.push(player)
            &&& r2.status == s.rooms[room_id].status
        }),
{
}

/// In every well-formed state — and every method keeps the state well
/// formed — each category leaderboard holds at most `MAX_ENTRIES` entries
/// and is sorted by score, non-increasing.
pub proof fn lemma_leaderboards_bounded_sorted(s: GameStationStateV, cat: Seq<char>)
    requires
        s.wf(),
    ensures
        lb_of(s.leaderboards, cat).len() <= MAX_ENTRIES,
        lb_sorted(lb_of(s.leaderboards, cat)),
{
}

/// After any operation, every stored profile's level is exactly the
/// progression of its xp: `level == floor(sqrt(xp / 100)) + 1`.
pub proof fn lemma_profile_levels_exact(
    s: GameStationStateV,
    owner: Seq<char>,
    op: Operation,
    now: u64,
    addr: Seq<char>,
)
    requires
        s.wf(),
        execute_step(s, owner, op, now).users.contains_key(addr),
    ensures
        ({
            let p = execute_step(s, owner, op, now).users[addr];
            p.level == level_of(p.xp)
        }),
{
    crate::types::lemma_default_profile_wf();
}

} // verus!
