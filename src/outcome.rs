use vstd::prelude::*;
use crate::matching::MatchResult;
use crate::text::{decimal, decimal_text, with_number};

verus! {

/// The least quality that an enrolled template must have.
pub const MIN_ENROLL_QUALITY: i32 = 90;

pub const INSUFFICIENT_TEXT: &'static str = "Insufficient quality (best: ";
pub const INSUFFICIENT_END: &'static str = "%). Try again, placing the finger more carefully.";
pub const ENROLLED_TEXT: &'static str = "Fingerprint enrolled (quality: ";
pub const ENROLLED_END: &'static str = "%).";
pub const BELOW_TEXT: &'static str = "Score ";
pub const BELOW_MID: &'static str = "% is below the minimum of ";
pub const PERCENT_END: &'static str = "%.";
pub const VERIFIED_TEXT: &'static str = "Fingerprint verified.";

/// The result of one enroll-or-verify run. A run that ends in a business
/// refusal (low quality, low score) succeeds as a call with `success == false`.
pub struct BiometricValidationResult {
    pub success: bool,
    pub reason: String,
    pub score: Option<i32>,
    pub percent: Option<i32>,
    pub quality: Option<i32>,
    pub enrolled: bool,
}

pub struct OutcomeView {
    pub success: bool,
    pub reason: Seq<char>,
    pub score: Option<i32>,
    pub percent: Option<i32>,
    pub quality: Option<i32>,
    pub enrolled: bool,
}

impl View for BiometricValidationResult {
    type V = OutcomeView;

    open spec fn view(&self) -> OutcomeView {
        OutcomeView {
            success: self.success,
            reason: self.reason@,
            score: self.score,
            percent: self.percent,
            quality: self.quality,
            enrolled: self.enrolled,
        }
    }
}

/// Enrollment refused: the best of the captures is below the quality threshold.
pub open spec fn insufficient_quality_outcome(quality: i32) -> OutcomeView {
    OutcomeView {
        success: false,
        reason: INSUFFICIENT_TEXT@ + decimal_text(quality as int) + INSUFFICIENT_END@,
        score: None,
        percent: None,
        quality: Some(quality),
        enrolled: false,
    }
}

/// Enrollment done: the sample of this quality was stored.
pub open spec fn enrolled_outcome(quality: i32) -> OutcomeView {
    OutcomeView {
        success: true,
        reason: ENROLLED_TEXT@ + decimal_text(quality as int) + ENROLLED_END@,
        score: None,
        percent: None,
        quality: Some(quality),
        enrolled: true,
    }
}

/// Verification: the best match against the stored templates, held against
/// the caller's minimum percentage.
pub open spec fn verification_outcome(best: MatchResult, live_quality: i32, min_percent: i32) -> OutcomeView {
    OutcomeView {
        success: best.percent >= min_percent,
        reason: if best.percent >= min_percent {
            VERIFIED_TEXT@
        } else {
            BELOW_TEXT@ + decimal_text(best.percent as int) + BELOW_MID@ + decimal_text(
                min_percent as int,
            ) + PERCENT_END@
        },
        score: Some(best.raw_score),
        percent: Some(best.percent),
        quality: Some(live_quality),
        enrolled: false,
    }
}

pub fn insufficient_quality(quality: i32) -> (r: BiometricValidationResult)
    ensures
        r@ == insufficient_quality_outcome(quality),
{
    BiometricValidationResult {
        success: false,
        reason: with_number(INSUFFICIENT_TEXT, quality as i64, INSUFFICIENT_END),
        score: None,
        percent: None,
        quality: Some(quality),
        enrolled: false,
    }
}

pub fn enrolled(quality: i32) -> (r: BiometricValidationResult)
    ensures
        r@ == enrolled_outcome(quality),
{
    BiometricValidationResult {
        success: true,
        reason: with_number(ENROLLED_TEXT, quality as i64, ENROLLED_END),
        score: None,
        percent: None,
        quality: Some(quality),
        enrolled: true,
    }
}

pub fn verification_result(best: MatchResult, live_quality: i32, min_percent: i32) -> (r:
    BiometricValidationResult)
    ensures
        r@ == verification_outcome(best, live_quality, min_percent),
{
    let reason = if best.percent >= min_percent {
        String::from_str(VERIFIED_TEXT)
    } else {
        let mut s = with_number(BELOW_TEXT, best.percent as i64, BELOW_MID);
        let d = decimal(min_percent as i64);
        s.append(d.as_str());
        s.append(PERCENT_END);
        s
    };
    BiometricValidationResult {
        success: best.percent >= min_percent,
        reason,
        score: Some(best.raw_score),
        percent: Some(best.percent),
        quality: Some(live_quality),
        enrolled: false,
    }
}

} // verus!
