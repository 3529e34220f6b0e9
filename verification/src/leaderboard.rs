//! The leaderboard engine.
//!
//! Each game category owns a bounded ranking: at most [`MAX_ENTRIES`]
//! entries, sorted by score non-increasing, one entry per player.  A score
//! submission either bumps the player's existing entry (when the new score
//! strictly exceeds the stored one) or inserts a fresh entry; the entry is
//! placed after every entry whose score is greater than or equal to its own,
//! which is exactly where a stable descending sort would leave it, and the
//! ranking is then truncated to the top [`MAX_ENTRIES`].

use vstd::prelude::*;
use crate::types::{LeaderboardEntry, LeaderboardEntryV};

verus! {

/// A category leaderboard never holds more entries than this.
pub const MAX_ENTRIES: usize = 100;

/// Scores are non-increasing from first to last.
pub open spec fn lb_sorted(entries: Seq<LeaderboardEntryV>) -> bool {
    forall|i: int, j: int| 0 <= i < j < entries.len() ==> entries[i].score >= entries[j].score
}

/// Every player address appears at most once.
pub open spec fn lb_unique(entries: Seq<LeaderboardEntryV>) -> bool {
    forall|i: int, j: int|
        0 <= i < j < entries.len() ==> entries[i].player_address != entries[j].player_address
}

/// A well-formed leaderboard: bounded, sorted and free of duplicates.
pub open spec fn lb_wf(entries: Seq<LeaderboardEntryV>) -> bool {
    &&& entries.len() <= MAX_ENTRIES
    &&& lb_sorted(entries)
    &&& lb_unique(entries)
}

/// Every games-played counter can still grow by one.
pub open spec fn lb_games_fit(entries: Seq<LeaderboardEntryV>) -> bool {
    forall|j: int| 0 <= j < entries.len() ==> entries[j].games_played < u32::MAX
}

/// Index of the entry owned by `addr`, or `-1` when there is none.
pub open spec fn lb_find(entries: Seq<LeaderboardEntryV>, addr: Seq<char>) -> int
    decreases entries.len(),
{
    if entries.len() == 0 {
        -1
    } else if entries[0].player_address == addr {
        0
    } else {
        let r = lb_find(entries.drop_first(), addr);
        if r < 0 {
            -1
        } else {
            r + 1
        }
    }
}

/// Where a stable descending sort places a score: past every entry whose
/// score is greater than or equal to it.
pub open spec fn lb_rank(entries: Seq<LeaderboardEntryV>, score: u64) -> int
    decreases entries.len(),
{
    if entries.len() == 0 {
        0
    } else if entries[0].score < score {
        0
    } else {
        1 + lb_rank(entries.drop_first(), score)
    }
}

/// A fresh entry for a player's first appearance in a category.  The
/// games-played count starts at one and the win rate is the fixed
/// placeholder `100`, not a figure computed from history.
pub open spec fn lb_new_entry(
    name: Seq<char>,
    addr: Seq<char>,
    score: u64,
    now: u64,
) -> LeaderboardEntryV {
    LeaderboardEntryV {
        player_name: name,
        player_address: addr,
        score,
        games_played: 1,
        win_rate: 100,
        timestamp: now,
    }
}

/// An existing entry after a strictly better score: new score, one more
/// game, fresh timestamp; name and win rate kept.
pub open spec fn lb_bumped_entry(e: LeaderboardEntryV, score: u64, now: u64) -> LeaderboardEntryV {
    LeaderboardEntryV {
        player_name: e.player_name,
        player_address: e.player_address,
        score,
        games_played: (e.games_played + 1) as u32,
        win_rate: e.win_rate,
        timestamp: now,
    }
}

/// Places `e` at its rank and keeps the best `MAX_ENTRIES` entries.
pub open spec fn lb_place(
    entries: Seq<LeaderboardEntryV>,
    e: LeaderboardEntryV,
) -> Seq<LeaderboardEntryV> {
    let placed = entries.insert(lb_rank(entries, e.score), e);
    if placed.len() <= MAX_ENTRIES {
        placed
    } else {
        placed.take(MAX_ENTRIES as int)
    }
}

/// The leaderboard after a submission of `score` by `addr`: unchanged when
/// the player's stored entry is at least as good; otherwise the bumped or
/// fresh entry placed at its rank, with the ranking truncated to the top
/// `MAX_ENTRIES`.
pub open spec fn lb_update(
    entries: Seq<LeaderboardEntryV>,
    addr: Seq<char>,
    name: Seq<char>,
    score: u64,
    now: u64,
) -> Seq<LeaderboardEntryV> {
    let i = lb_find(entries, addr);
    if i >= 0 {
        if entries[i].score < score {
            lb_place(entries.remove(i), lb_bumped_entry(entries[i], score, now))
        } else {
            entries
        }
    } else {
        lb_place(entries, lb_new_entry(name, addr, score, now))
    }
}

/// `lb_find` returns the first index carrying `addr`, or `-1` when no entry
/// does.
pub proof fn lemma_lb_find_props(entries: Seq<LeaderboardEntryV>, addr: Seq<char>)
    ensures
        lb_find(entries, addr) == -1 || 0 <= lb_find(entries, addr) < entries.len(),
        lb_find(entries, addr) == -1 ==> forall|i: int|
            0 <= i < entries.len() ==> entries[i].player_address != addr,
        lb_find(entries, addr) >= 0 ==> entries[lb_find(entries, addr)].player_address == addr,
        forall|j: int|
            0 <= j < lb_find(entries, addr) ==> entries[j].player_address != addr,
    decreases entries.len(),
{
    if entries.len() > 0 && entries[0].player_address != addr {
        lemma_lb_find_props(entries.drop_first(), addr);
        assert forall|i: int|
            lb_find(entries, addr) == -1 && 0 <= i < entries.len() implies entries[i].player_address
            != addr by {
            if i > 0 {
                assert(entries.drop_first()[i - 1] == entries[i]);
            }
        }
        assert forall|j: int| 0 <= j < lb_find(entries, addr) implies entries[j].player_address
            != addr by {
            if j > 0 {
                assert(entries.drop_first()[j - 1] == entries[j]);
            }
        }
    }
}

/// `lb_rank` is the first index whose score is strictly below the given one.
pub proof fn lemma_lb_rank_props(entries: Seq<LeaderboardEntryV>, score: u64)
    ensures
        0 <= lb_rank(entries, score) <= entries.len(),
        forall|j: int| 0 <= j < lb_rank(entries, score) ==> entries[j].score >= score,
        lb_rank(entries, score) < entries.len() ==> entries[lb_rank(entries, score)].score < score,
    decreases entries.len(),
{
    if entries.len() > 0 && entries[0].score >= score {
        lemma_lb_rank_props(entries.drop_first(), score);
        assert forall|j: int| 0 <= j < lb_rank(entries, score) implies entries[j].score >= score by {
            if j > 0 {
                assert(entries.drop_first()[j - 1] == entries[j]);
            }
        }
        if lb_rank(entries, score) < entries.len() {
            assert(entries.drop_first()[lb_rank(entries, score) - 1]
                == entries[lb_rank(entries, score)]);
        }
    }
}

/// Removing an entry keeps a leaderboard sorted and duplicate-free.
pub proof fn lemma_lb_remove_wf(entries: Seq<LeaderboardEntryV>, i: int)
    requires
        lb_sorted(entries),
        lb_unique(entries),
        0 <= i < entries.len(),
    ensures
        lb_sorted(entries.remove(i)),
        lb_unique(entries.remove(i)),
        forall|j: int|
            0 <= j < entries.remove(i).len() ==> entries.remove(i)[j].player_address
                != entries[i].player_address,
{
    let r = entries.remove(i);
    assert forall|a: int, b: int| 0 <= a < b < r.len() implies r[a].score >= r[b].score && r[a].player_address
        != r[b].player_address by {
        let a2: int = if a < i { a } else { a + 1 };
        let b2: int = if b < i { b } else { b + 1 };
        assert(r[a] == entries[a2]);
        assert(r[b] == entries[b2]);
    }
    assert forall|j: int| 0 <= j < r.len() implies r[j].player_address
        != entries[i].player_address by {
        let j2: int = if j < i { j } else { j + 1 };
        assert(r[j] == entries[j2]);
    }
}

/// Placing an entry whose address is absent keeps the leaderboard well
/// formed, and the result is the insertion truncated to `MAX_ENTRIES`.
pub proof fn lemma_lb_place_wf(entries: Seq<LeaderboardEntryV>, e: LeaderboardEntryV)
    requires
        lb_sorted(entries),
        lb_unique(entries),
        forall|j: int| 0 <= j < entries.len() ==> entries[j].player_address != e.player_address,
    ensures
        lb_wf(lb_place(entries, e)),
        lb_place(entries, e).len() == vstd::math::min(entries.len() as int + 1, MAX_ENTRIES as int),
{
    let k = lb_rank(entries, e.score);
    lemma_lb_rank_props(entries, e.score);
    let placed = entries.insert(k, e);
    entries.insert_ensures(k, e);
    assert forall|a: int, b: int| 0 <= a < b < placed.len() implies placed[a].score
        >= placed[b].score && placed[a].player_address != placed[b].player_address by {
        if a < k && b < k {
            assert(placed[a] == entries[a] && placed[b] == entries[b]);
        } else if a < k && b == k {
            assert(placed[a] == entries[a]);
        } else if a < k && b > k {
            assert(placed[a] == entries[a] && placed[b] == entries[b - 1]);
        } else if a == k && b > k {
            assert(placed[b] == entries[b - 1]);
            assert(entries[b - 1].score < e.score);
        } else {
            assert(placed[a] == entries[a - 1] && placed[b] == entries[b - 1]);
        }
    }
    if placed.len() > MAX_ENTRIES {
        let taken = placed.take(MAX_ENTRIES as int);
        assert forall|a: int, b: int| 0 <= a < b < taken.len() implies taken[a].score
            >= taken[b].score && taken[a].player_address != taken[b].player_address by {
            assert(taken[a] == placed[a] && taken[b] == placed[b]);
        }
    }
}

/// The update of a well-formed leaderboard is well formed.
pub proof fn lemma_lb_update_wf(
    entries: Seq<LeaderboardEntryV>,
    addr: Seq<char>,
    name: Seq<char>,
    score: u64,
    now: u64,
)
    requires
        lb_wf(entries),
    ensures
        lb_wf(lb_update(entries, addr, name, score, now)),
{
    let i = lb_find(entries, addr);
    lemma_lb_find_props(entries, addr);
    if i >= 0 {
        if entries[i].score < score {
            lemma_lb_remove_wf(entries, i);
            lemma_lb_place_wf(entries.remove(i), lb_bumped_entry(entries[i], score, now));
        }
    } else {
        lemma_lb_place_wf(entries, lb_new_entry(name, addr, score, now));
    }
}

/// Index of the entry owned by `address`, matching `lb_find`.
fn find_entry(entries: &Vec<LeaderboardEntry>, address: &String) -> (r: Option<usize>)
    ensures
        match r {
            Some(i) => 0 <= lb_find(entries.deep_view(), address@) == i as int,
            None => lb_find(entries.deep_view(), address@) == -1,
        },
{
    proof {
        lemma_lb_find_props(entries.deep_view(), address@);
    }
    let ghost dv = entries.deep_view();
    let n = entries.len();
    let mut i: usize = 0;
    while i < n
        invariant
            n == entries.len(),
            dv == entries.deep_view(),
            i <= n,
            forall|j: int| 0 <= j < i ==> dv[j].player_address != address@,
        decreases n - i,
    {
        if entries[i].player_address == *address {
            proof {
                assert(dv[i as int].player_address == address@);
                lemma_lb_find_props(dv, address@);
                let f = lb_find(dv, address@);
                if f != i as int {
                    assert(dv[f].player_address == address@);
                }
            }
            return Some(i);
        }
        i = i + 1;
    }
    None
}

/// First index whose score is strictly below `score`, matching `lb_rank`.
fn rank_of(entries: &Vec<LeaderboardEntry>, score: u64) -> (k: usize)
    ensures
        k as int == lb_rank(entries.deep_view(), score),
        k <= entries.len(),
{
    proof {
        lemma_lb_rank_props(entries.deep_view(), score);
    }
    let ghost dv = entries.deep_view();
    let n = entries.len();
    let mut i: usize = 0;
    while i < n
        invariant
            n == entries.len(),
            dv == entries.deep_view(),
            i <= n,
            forall|j: int| 0 <= j < i ==> dv[j].score >= score,
        decreases n - i,
    {
        if entries[i].score < score {
            proof {
                assert(dv[i as int] == entries@[i as int]@);
                lemma_lb_rank_props(dv, score);
                let r = lb_rank(dv, score);
                if r < i as int {
                    assert(dv[r].score >= score);
                }
                if r > i as int {
                    assert(dv[i as int].score >= score);
                }
            }
            return i;
        }
        i = i + 1;
    }
    proof {
        lemma_lb_rank_props(dv, score);
        let r = lb_rank(dv, score);
        if r < n as int {
            assert(dv[r].score >= score);
        }
    }
    n
}

/// Applies one submission to a category leaderboard, in place.
///
/// The result is exactly [`lb_update`] of the old contents: the player's
/// entry is bumped when `score` strictly exceeds its stored score, a fresh
/// entry is inserted when the player had none, the entry lands at its rank
/// and the ranking keeps at most [`MAX_ENTRIES`] rows.
pub fn apply_submission(
    entries: &mut Vec<LeaderboardEntry>,
    address: &String,
    name: String,
    score: u64,
    now: u64,
)
    requires
        lb_wf(old(entries).deep_view()),
        lb_games_fit(old(entries).deep_view()),
    ensures
        final(entries).deep_view() == lb_update(
            old(entries).deep_view(),
            address@,
            name@,
            score,
            now,
        ),
        lb_wf(final(entries).deep_view()),
{
    let ghost orig = old(entries).deep_view();
    proof {
        lemma_lb_find_props(orig, address@);
        lemma_lb_update_wf(orig, address@, name@, score, now);
    }
    match find_entry(entries, address) {
        Some(i) => {
            if entries[i].score < score {
                let e = entries.remove(i);
                proof {
                    assert(entries.deep_view() =~= orig.remove(i as int));
                }
                let bumped = LeaderboardEntry {
                    player_name: e.player_name,
                    player_address: e.player_address,
                    score,
                    games_played: e.games_played + 1,
                    win_rate: e.win_rate,
                    timestamp: now,
                };
                proof {
                    assert(bumped@ =~= lb_bumped_entry(orig[i as int], score, now));
                }
                place_entry(entries, bumped);
                proof {
                    assert(entries.deep_view() =~= lb_update(
                        orig,
                        address@,
                        name@,
                        score,
                        now,
                    ));
                }
            } else {
                proof {
                    assert(entries.deep_view() =~= lb_update(
                        orig,
                        address@,
                        name@,
                        score,
                        now,
                    ));
                }
            }
        },
        None => {
            let fresh = LeaderboardEntry {
                player_name: name,
                player_address: address.clone(),
                score,
                games_played: 1,
                win_rate: 100,
                timestamp: now,
            };
            proof {
                assert(fresh@ =~= lb_new_entry(name@, address@, score, now));
            }
            place_entry(entries, fresh);
            proof {
                assert(entries.deep_view() =~= lb_update(orig, address@, name@, score, now));
            }
        },
    }
}

/// Clones a category's entries.
pub fn clone_entries(v: &Vec<LeaderboardEntry>) -> (r: Vec<LeaderboardEntry>)
    ensures
        r.deep_view() == v.deep_view(),
{
    let mut r: Vec<LeaderboardEntry> = Vec::new();
    let n = v.len();
    let mut i: usize = 0;
    while i < n
        invariant
            n == v.len(),
            i <= n,
            r@.len() == i,
            forall|j: int| 0 <= j < i ==> r@[j]@ == v@[j]@,
        decreases n - i,
    {
        r.push(v[i].clone());
        i = i + 1;
    }
    proof {
        assert forall|j: int| 0 <= j < r@.len() implies r.deep_view()[j] == v.deep_view()[j] by {
            assert(r@[j]@ == v@[j]@);
        }
        assert(r.deep_view() =~= v.deep_view());
    }
    r
}

/// Inserts `e` at its rank and truncates to [`MAX_ENTRIES`].
fn place_entry(entries: &mut Vec<LeaderboardEntry>, e: LeaderboardEntry)
    ensures
        final(entries).deep_view() == lb_place(old(entries).deep_view(), e@),
{
    let ghost orig = old(entries).deep_view();
    let k = rank_of(entries, e.score);
    entries.insert(k, e);
    proof {
        assert(entries.deep_view() =~= orig.insert(lb_rank(orig, e@.score), e@));
    }
    if entries.len() > MAX_ENTRIES {
        entries.truncate(MAX_ENTRIES);
        proof {
            assert(entries.deep_view() =~= lb_place(orig, e@));
        }
    } else {
        proof {
            assert(entries.deep_view() =~= lb_place(orig, e@));
        }
    }
}

} // verus!
