//! Printable names: game-category names, decimal rendering of timestamps,
//! room identifiers and the fallback display name derived from an address.

use vstd::prelude::*;
use vstd::string::StrSliceExecFns;
use vstd::string::StringExecFns;
use crate::types::GameType;
use crate::types::RoomStatus;

verus! {

/// The printed name of a game category.
pub open spec fn game_type_name(gt: GameType) -> Seq<char> {
    match gt {
        GameType::Snake => "Snake"@,
        GameType::TicTacToe => "TicTacToe"@,
        GameType::SnakeLadders => "SnakeLadders"@,
        GameType::Uno => "Uno"@,
    }
}

/// The printed name of a game category.
pub fn game_type_name_str(gt: GameType) -> (r: &'static str)
    ensures
        r@ == game_type_name(gt),
{
    match gt {
        GameType::Snake => "Snake",
        GameType::TicTacToe => "TicTacToe",
        GameType::SnakeLadders => "SnakeLadders",
        GameType::Uno => "Uno",
    }
}

/// The printed name of a room status.
pub open spec fn room_status_name(status: RoomStatus) -> Seq<char> {
    match status {
        RoomStatus::Waiting => "Waiting"@,
        RoomStatus::InProgress => "InProgress"@,
        RoomStatus::Finished => "Finished"@,
    }
}

/// The printed name of a room status.
pub fn room_status_name_str(status: RoomStatus) -> (r: &'static str)
    ensures
        r@ == room_status_name(status),
{
    match status {
        RoomStatus::Waiting => "Waiting",
        RoomStatus::InProgress => "InProgress",
        RoomStatus::Finished => "Finished",
    }
}

/// The character of a decimal digit.
pub open spec fn digit_char(d: nat) -> char {
    if d == 0 {
        '0'
    } else if d == 1 {
        '1'
    } else if d == 2 {
        '2'
    } else if d == 3 {
        '3'
    } else if d == 4 {
        '4'
    } else if d == 5 {
        '5'
    } else if d == 6 {
        '6'
    } else if d == 7 {
        '7'
    } else if d == 8 {
        '8'
    } else {
        '9'
    }
}

/// The decimal digits of `n`, most significant first, no leading zeroes
/// (except for `n == 0` itself).
pub open spec fn dec_chars(n: nat) -> Seq<char>
    decreases n,
{
    if n < 10 {
        seq![digit_char(n)]
    } else {
        dec_chars(n / 10).push(digit_char(n % 10))
    }
}

/// The one-character string of a decimal digit.
fn digit_str(d: u64) -> (r: &'static str)
    requires
        d < 10,
    ensures
        r@ =~= seq![digit_char(d as nat)],
{
    proof {
        reveal_strlit("0");
        reveal_strlit("1");
        reveal_strlit("2");
        reveal_strlit("3");
        reveal_strlit("4");
        reveal_strlit("5");
        reveal_strlit("6");
        reveal_strlit("7");
        reveal_strlit("8");
        reveal_strlit("9");
    }
    if d == 0 {
        "0"
    } else if d == 1 {
        "1"
    } else if d == 2 {
        "2"
    } else if d == 3 {
        "3"
    } else if d == 4 {
        "4"
    } else if d == 5 {
        "5"
    } else if d == 6 {
        "6"
    } else if d == 7 {
        "7"
    } else if d == 8 {
        "8"
    } else {
        "9"
    }
}

/// Renders `n` in decimal.
pub fn u64_to_dec(n: u64) -> (r: String)
    ensures
        r@ == dec_chars(n as nat),
    decreases n,
{
    if n < 10 {
        let mut s = String::new();
        s.append(digit_str(n));
        proof {
            assert(s@ =~= dec_chars(n as nat));
        }
        s
    } else {
        let mut s = u64_to_dec(n / 10);
        s.append(digit_str(n % 10));
        proof {
            assert(s@ =~= dec_chars(n as nat));
        }
        s
    }
}

/// A room's identifier: the category name, a dash, and the creation time in
/// microseconds.  Two rooms created for the same category at the same
/// timestamp collide; the id scheme leaves that risk open.
pub open spec fn room_id_of(gt: GameType, now: u64) -> Seq<char> {
    game_type_name(gt) + "-"@ + dec_chars(now as nat)
}

/// Builds a room identifier.
pub fn make_room_id(gt: GameType, now: u64) -> (r: String)
    ensures
        r@ == room_id_of(gt, now),
{
    let mut s = String::new();
    s.append(game_type_name_str(gt));
    s.append("-");
    let digits = u64_to_dec(now);
    s.append(digits.as_str());
    proof {
        assert(s@ =~= room_id_of(gt, now));
    }
    s
}

/// The display name a player falls back to when their profile has no name:
/// the first eight characters of the address (the whole address when it is
/// shorter).
pub open spec fn fallback_name(addr: Seq<char>) -> Seq<char> {
    if addr.len() >= 8 {
        addr.take(8)
    } else {
        addr
    }
}

/// Derives the fallback display name from an address.
pub fn make_fallback_name(address: &String) -> (r: String)
    ensures
        r@ == fallback_name(address@),
{
    let len = address.as_str().unicode_len();
    if len >= 8 {
        let prefix = address.as_str().substring_char(0, 8);
        let r = String::from_str(prefix);
        proof {
            assert(r@ =~= fallback_name(address@));
        }
        r
    } else {
        address.clone()
    }
}

} // verus!
