//! The fixed values of the ritual: the estimation sequence, the two lifecycle
//! buttons, the masking symbols and the two patterns that a title is held to.

use vstd::prelude::*;

verus! {

/// How many values the estimation sequence offers.
pub const SEQ_LEN: usize = 11;

/// How many values stand in one keyboard row.
pub const ROW_WIDTH: usize = 4;

/// How many symbols can stand in for a hidden vote.
pub const SYMBOL_COUNT: usize = 4;

/// What a well-formed link looks like.
pub const URL_REGEX: &'static str =
    r"https?://(www\.)?[-a-zA-Z0-9@:%._\+~#=]{2,256}\.[a-z]{2,4}\b([-a-zA-Z0-9@:%_\+.~#?&//=]*)";

/// What a short issue identifier looks like.
pub const ISSUE_ID_REGEX: &'static str = r"[A-Z]+-\d+";

/// The token that the restart button carries.
pub const RESTART: &'static str = "restart";

/// The token that the finish button carries.
pub const FINISH: &'static str = "finish";

/// The label of the restart button.
pub const RESTART_LABEL: &'static str = "Перезапустить";

/// The label of the finish button.
pub const FINISH_LABEL: &'static str = "Завершить";

/// The estimation sequence, in the order in which the keyboard offers it.
pub open spec fn default_seq() -> Seq<Seq<char>> {
    seq!["0"@, "1"@, "2"@, "3"@, "5"@, "8"@, "13"@, "21"@, "34"@, "55"@, "89"@]
}

/// The symbols that stand in for a vote that is not revealed yet.
pub open spec fn symbols() -> Seq<Seq<char>> {
    seq!["♦️"@, "♠️"@, "♣️"@, "♥️"@]
}

/// The value at place `i` of the estimation sequence.
pub fn seq_value(i: usize) -> (r: &'static str)
    requires
        i < SEQ_LEN,
    ensures
        r@ == default_seq()[i as int],
{
    match i {
        0 => "0",
        1 => "1",
        2 => "2",
        3 => "3",
        4 => "5",
        5 => "8",
        6 => "13",
        7 => "21",
        8 => "34",
        9 => "55",
        _ => "89",
    }
}

/// The masking symbol at place `i`.
pub fn symbol(i: usize) -> (r: &'static str)
    requires
        i < SYMBOL_COUNT,
    ensures
        r@ == symbols()[i as int],
{
    match i {
        0 => "♦️",
        1 => "♠️",
        2 => "♣️",
        _ => "♥️",
    }
}

} // verus!
