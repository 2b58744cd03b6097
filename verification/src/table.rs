//! What a table of players needs besides the records: which row is
//! selected after a step up or down, and how a play time reads on a clock.

use vstd::prelude::*;

verus! {

/// The row below the selected one, and the first row below the last. With
/// no row selected it is the first row.
pub open spec fn row_below(selected: Option<usize>, rows: usize) -> usize {
    match selected {
        Some(row) => if row + 1 < rows {
            (row + 1) as usize
        } else {
            0
        },
        None => 0,
    }
}

/// The row above the selected one, and the last row above the first. With
/// no row selected it is the first row.
pub open spec fn row_above(selected: Option<usize>, rows: usize) -> usize {
    match selected {
        Some(row) => if row > 0 {
            (row - 1) as usize
        } else if rows > 0 {
            (rows - 1) as usize
        } else {
            0
        },
        None => 0,
    }
}

/// The row to select after a step down in a table of `rows` rows.
pub fn next(selected: Option<usize>, rows: usize) -> (row: usize)
    ensures
        row == row_below(selected, rows),
{
    match selected {
        Some(row) => {
            if rows == 0 || row >= rows - 1 {
                0
            } else {
                row + 1
            }
        },
        None => 0,
    }
}

/// The row to select after a step up in a table of `rows` rows.
pub fn previous(selected: Option<usize>, rows: usize) -> (row: usize)
    ensures
        row == row_above(selected, rows),
{
    match selected {
        Some(row) => {
            if row == 0 {
                if rows == 0 {
                    0
                } else {
                    rows - 1
                }
            } else {
                row - 1
            }
        },
        None => 0,
    }
}

/// From a row of the table a step leads to a row of the table, and a step
/// down and a step up undo each other.
pub proof fn lemma_steps_stay_in_the_table(row: usize, rows: usize)
    requires
        row < rows,
    ensures
        row_below(Some(row), rows) < rows,
        row_above(Some(row), rows) < rows,
        row_above(Some(row_below(Some(row), rows)), rows) == row,
        row_below(Some(row_above(Some(row), rows)), rows) == row,
{
}

/// `seconds` as hours, minutes and seconds: the three add up to `seconds`,
/// minutes and seconds stay below sixty, and none of them has another sign
/// than `seconds`.
pub open spec fn is_clock_of(hours: int, minutes: int, rest: int, seconds: int) -> bool {
    &&& hours * 3600 + minutes * 60 + rest == seconds
    &&& -60 < minutes < 60
    &&& -60 < rest < 60
    &&& seconds >= 0 ==> hours >= 0 && minutes >= 0 && rest >= 0
    &&& seconds <= 0 ==> hours <= 0 && minutes <= 0 && rest <= 0
}

/// Splits `seconds` into hours, minutes and seconds.
pub fn clock(seconds: i64) -> (parts: (i64, i64, i64))
    ensures
        is_clock_of(parts.0 as int, parts.1 as int, parts.2 as int, seconds as int),
{
    if seconds >= 0 {
        let whole: u64 = seconds as u64;
        ((whole / 3600) as i64, ((whole / 60) % 60) as i64, (whole % 60) as i64)
    } else {
        let whole: u64 = (-(seconds + 1)) as u64 + 1;
        (-((whole / 3600) as i64), -(((whole / 60) % 60) as i64), -((whole % 60) as i64))
    }
}

/// Only one split of `seconds` is its clock.
pub proof fn lemma_clock_is_unique(
    seconds: int,
    hours: int,
    minutes: int,
    rest: int,
    other_hours: int,
    other_minutes: int,
    other_rest: int,
)
    requires
        is_clock_of(hours, minutes, rest, seconds),
        is_clock_of(other_hours, other_minutes, other_rest, seconds),
    ensures
        hours == other_hours,
        minutes == other_minutes,
        rest == other_rest,
{
}

} // verus!
