use vstd::prelude::*;
use crate::device::{CODE_OK, DeviceError};
use crate::percent::{percent_of, score_to_percent};

verus! {

/// A template kept by the remote store.
pub struct StoredTemplate {
    pub id: String,
    pub template: String,
    pub quality: i32,
}

/// A raw device score (0..=20000) with its percentage.
#[derive(Clone, Copy, Debug, PartialEq, Eq, Structural)]
pub struct MatchResult {
    pub raw_score: i32,
    pub percent: i32,
}

pub open spec fn compare_result(code: i32, raw_score: i32) -> Result<MatchResult, DeviceError> {
    if code == CODE_OK {
        Ok(MatchResult { raw_score, percent: percent_of(raw_score as int) as i32 })
    } else {
        Err(DeviceError::ComparisonFailed(code))
    }
}

/// Reads the device's reply to comparing a stored template with a live one.
pub fn compare_templates_with_sdk(code: i32, raw_score: i32) -> (r: Result<MatchResult, DeviceError>)
    ensures
        r == compare_result(code, raw_score),
{
    if code == CODE_OK {
        Ok(MatchResult { raw_score, percent: score_to_percent(raw_score) })
    } else {
        Err(DeviceError::ComparisonFailed(code))
    }
}

/// The better of the best match so far and a new one: the new one only when
/// its percentage is strictly higher, so that of equal ones the first is kept.
pub open spec fn better_match(best: Option<MatchResult>, next: MatchResult) -> MatchResult {
    match best {
        Some(b) => if next.percent > b.percent {
            next
        } else {
            b
        },
        None => next,
    }
}

pub fn keep_better_match(best: Option<MatchResult>, next: MatchResult) -> (r: MatchResult)
    ensures
        r == better_match(best, next),
{
    match best {
        Some(b) => if next.percent > b.percent {
            next
        } else {
            b
        },
        None => next,
    }
}

/// The best of a sequence of matches, kept in order with `better_match`.
pub open spec fn best_of(ms: Seq<MatchResult>) -> Option<MatchResult>
    decreases ms.len(),
{
    if ms.len() == 0 {
        None
    } else {
        Some(better_match(best_of(ms.drop_last()), ms.last()))
    }
}

/// The best of a nonempty sequence of matches has the highest percentage of
/// all, and every match before it has a strictly lower one: of equal
/// percentages the first one wins.
pub proof fn lemma_best_of(ms: Seq<MatchResult>)
    requires
        ms.len() > 0,
    ensures
        exists|j: int|
            0 <= j < ms.len() && best_of(ms) == Some(ms[j]) && (forall|k: int|
                0 <= k < ms.len() ==> #[trigger] ms[k].percent <= ms[j].percent) && (forall|k: int|
                0 <= k < j ==> #[trigger] ms[k].percent < ms[j].percent),
    decreases ms.len(),
{
    let init = ms.drop_last();
    if init.len() == 0 {
        assert(best_of(ms) == Some(ms[0]));
    } else {
        lemma_best_of(init);
        let j = choose|j: int|
            0 <= j < init.len() && best_of(init) == Some(init[j]) && (forall|k: int|
                0 <= k < init.len() ==> #[trigger] init[k].percent <= init[j].percent) && (forall|
                k: int,
            | 0 <= k < j ==> #[trigger] init[k].percent < init[j].percent);
        assert(init[j] == ms[j]);
        if ms.last().percent > init[j].percent {
            let l = ms.len() - 1;
            assert forall|k: int| 0 <= k < l implies #[trigger] ms[k].percent < ms[l].percent by {
                assert(init[k] == ms[k]);
            }
            assert(best_of(ms) == Some(ms[l]));
        } else {
            assert forall|k: int| 0 <= k < ms.len() implies #[trigger] ms[k].percent <= ms[j].percent by {
                if k < init.len() {
                    assert(init[k] == ms[k]);
                }
            }
            assert forall|k: int| 0 <= k < j implies #[trigger] ms[k].percent < ms[j].percent by {
                assert(init[k] == ms[k]);
            }
        }
    }
}

} // verus!
