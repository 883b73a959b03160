use vstd::prelude::*;

verus! {

/// The largest raw similarity score the device reports.
pub const MAX_RAW_SCORE: i32 = 20000;

/// `s / 20000 * 100` rounded to the nearest integer, halves away from zero.
pub open spec fn percent_of(s: int) -> int {
    if s >= 0 {
        (s + 100) / 200
    } else {
        -((100 - s) / 200)
    }
}

/// Maps a raw device score (0..=20000) onto a percentage (0..=100).
pub fn score_to_percent(score: i32) -> (r: i32)
    ensures
        r == percent_of(score as int),
{
    let s: i64 = score as i64;
    if s >= 0 {
        ((s + 100) / 200) as i32
    } else {
        (-((100 - s) / 200)) as i32
    }
}

/// On the device's score range the percentage is the nearest integer to
/// `s / 200` (halves round up), lies in 0..=100, and hits the end points.
pub proof fn lemma_percent_in_range(s: int)
    requires
        0 <= s <= MAX_RAW_SCORE,
    ensures
        0 <= percent_of(s) <= 100,
        200 * percent_of(s) - 100 <= s < 200 * percent_of(s) + 100,
        percent_of(0) == 0,
        percent_of(18000) == 90,
        percent_of(MAX_RAW_SCORE as int) == 100,
{
}

} // verus!
