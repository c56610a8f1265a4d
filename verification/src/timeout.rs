//! Scrape-timeout budget resolution.
//!
//! A caller declares its own deadline budget in a request header; the
//! resolver turns that hint into the internal time budget for one fetch.
//! Time is carried as whole milliseconds so that the arithmetic is exact.

use vstd::prelude::*;

verus! {

/// Fixed safety margin subtracted from large hints, leaving headroom for
/// response assembly after the internal work completes.
pub const TIMEOUT_MARGIN_MS: u64 = 500;

/// The margin applies only to hints strictly above this threshold; smaller
/// budgets are not shrunk further.
pub const TIMEOUT_MARGIN_THRESHOLD_MS: u64 = 3000;

/// The resolved budget is never below this floor: a zero or negative budget
/// would make every fetch fail before it starts.
pub const TIMEOUT_FLOOR_MS: u64 = 100;

/// The resolved budget for a hint of `hint_ms` milliseconds under a hard
/// ceiling of `ceiling_ms`: subtract the margin above the threshold, clamp
/// to the floor, then clamp to the ceiling (the ceiling always wins).
pub open spec fn resolved_timeout_ms(hint_ms: int, ceiling_ms: int) -> int {
    let adjusted = if hint_ms > TIMEOUT_MARGIN_THRESHOLD_MS {
        hint_ms - TIMEOUT_MARGIN_MS
    } else {
        hint_ms
    };
    let floored = if adjusted < TIMEOUT_FLOOR_MS {
        TIMEOUT_FLOOR_MS as int
    } else {
        adjusted
    };
    if floored > ceiling_ms {
        ceiling_ms
    } else {
        floored
    }
}

/// Maps the caller-declared timeout hint to the internal deadline budget.
///
/// A missing hint is a required-input violation and yields `None`: the
/// caller must not silently substitute a default, since a wrong budget
/// risks exceeding the real caller's own deadline. A present hint always
/// resolves, to a budget of at least the floor and at most the ceiling
/// (or exactly the ceiling where the ceiling is below the floor).
pub fn effective_timeout(hint_ms: Option<i64>, ceiling_ms: u64) -> (r: Option<u64>)
    ensures
        r is Some <==> hint_ms is Some,
        hint_ms matches Some(h) ==> r == Some::<u64>(resolved_timeout_ms(h as int, ceiling_ms as int) as u64),
{
    match hint_ms {
        None => None,
        Some(h) => {
            let adjusted: i64 = if h > TIMEOUT_MARGIN_THRESHOLD_MS as i64 {
                h - TIMEOUT_MARGIN_MS as i64
            } else {
                h
            };
            let floored: u64 = if adjusted < TIMEOUT_FLOOR_MS as i64 {
                TIMEOUT_FLOOR_MS
            } else {
                adjusted as u64
            };
            let capped: u64 = if floored > ceiling_ms {
                ceiling_ms
            } else {
                floored
            };
            Some(capped)
        }
    }
}

} // verus!

