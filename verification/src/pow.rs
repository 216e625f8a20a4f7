//! Verification of a submitted proof of work.
use vstd::prelude::*;

use crate::models::CreatePerformanceAnalytics;

verus! {

/// Validation token that clients receive as proof for submitting a valid
/// proof of work.
#[derive(Debug, Clone, PartialEq, Eq)]
pub struct ValidationToken {
    pub token: String,
}

/// A proof of work as clients submit it, with the optional timing of the
/// solve.
#[derive(Debug, Clone, PartialEq, Eq)]
pub struct ApiWork {
    pub string: String,
    pub result: String,
    pub nonce: u64,
    pub key: String,
    pub time: Option<u32>,
    pub worker_type: Option<String>,
}

/// A proof of work as the captcha system checks it.
#[derive(Debug, Clone, PartialEq, Eq)]
pub struct Work {
    pub string: String,
    pub result: String,
    pub nonce: u64,
    pub key: String,
}

pub open spec fn spec_work_of(value: ApiWork) -> Work {
    Work { string: value.string, nonce: value.nonce, result: value.result, key: value.key }
}

impl From<ApiWork> for Work {
    fn from(value: ApiWork) -> (r: Work)
        ensures
            r.string == value.string,
            r.result == value.result,
            r.nonce == value.nonce,
            r.key == value.key,
    {
        Work { string: value.string, nonce: value.nonce, result: value.result, key: value.key }
    }
}

impl vstd::std_specs::convert::FromSpecImpl<ApiWork> for Work {
    open spec fn obeys_from_spec() -> bool {
        true
    }

    open spec fn from_spec(value: ApiWork) -> Work {
        spec_work_of(value)
    }
}

/// Raising the highest nonce tracked for a level of a captcha.
#[derive(Debug, Clone, PartialEq, Eq)]
pub struct MaxNonceUpdate {
    pub key: String,
    pub difficulty_factor: u32,
    pub latest_nonce: u32,
}

/// What follows a proof of work that the captcha system accepted, in order:
/// record the solve for the captcha, save the timing where the client sent
/// one, raise the tracked nonce of the level, and answer with the token.
#[derive(Debug, Clone, PartialEq, Eq)]
pub struct VerifiedPowPlan {
    /// Key of the captcha whose solve is recorded.
    pub record_solve: String,
    /// Timing saved for the captcha, where the client sent one.
    pub analytics: Option<CreatePerformanceAnalytics>,
    /// The tracked nonce to raise.
    pub nonce_update: MaxNonceUpdate,
    /// The answer.
    pub response: ValidationToken,
}

/// The timing saved for a solve: only where the client sent both the time and
/// the worker type.
pub open spec fn spec_analytics_for(payload: ApiWork, difficulty_factor: u32) -> Option<
    CreatePerformanceAnalytics,
> {
    match (payload.time, payload.worker_type) {
        (Some(time), Some(worker_type)) => Some(
            CreatePerformanceAnalytics { difficulty_factor, time, worker_type },
        ),
        _ => None,
    }
}

/// What to do after the captcha system accepted `payload`, answering with
/// `token` at `difficulty_factor`.
pub fn plan_verified_pow(payload: &ApiWork, token: String, difficulty_factor: u32) -> (r:
    VerifiedPowPlan)
    ensures
        r.record_solve == payload.key,
        r.analytics == spec_analytics_for(*payload, difficulty_factor),
        r.analytics is Some <==> (payload.time is Some && payload.worker_type is Some),
        r.analytics matches Some(a) ==> {
            &&& a.difficulty_factor == difficulty_factor
            &&& payload.time == Some(a.time)
            &&& payload.worker_type == Some(a.worker_type)
        },
        r.nonce_update == (MaxNonceUpdate {
            key: payload.key,
            difficulty_factor,
            latest_nonce: payload.nonce as u32,
        }),
        r.response == (ValidationToken { token }),
{
    let analytics = match (payload.time, &payload.worker_type) {
        (Some(time), Some(worker_type)) => Some(
            CreatePerformanceAnalytics { difficulty_factor, time, worker_type: worker_type.clone() },
        ),
        _ => None,
    };
    VerifiedPowPlan {
        record_solve: payload.key.clone(),
        analytics,
        nonce_update: MaxNonceUpdate {
            key: payload.key.clone(),
            difficulty_factor,
            latest_nonce: payload.nonce as u32,
        },
        response: ValidationToken { token },
    }
}

/// The timing saved for an accepted proof of work is the one the client sent,
/// at the difficulty factor the captcha system verified the work at; nothing is
/// saved unless the client sent both the time and the worker type.
pub proof fn lemma_saved_timing_is_the_sent_one(payload: ApiWork, difficulty_factor: u32)
    ensures
        spec_analytics_for(payload, difficulty_factor) is Some <==> (payload.time is Some
            && payload.worker_type is Some),
        spec_analytics_for(payload, difficulty_factor) matches Some(a) ==> {
            &&& a.difficulty_factor == difficulty_factor
            &&& payload.time == Some(a.time)
            &&& payload.worker_type == Some(a.worker_type)
        },
{
}

/// The work handed to the captcha system is the submitted one: same challenge
/// string, result, nonce and sitekey.
pub proof fn lemma_work_is_the_submitted_one(value: ApiWork)
    ensures
        spec_work_of(value).string == value.string,
        spec_work_of(value).result == value.result,
        spec_work_of(value).nonce == value.nonce,
        spec_work_of(value).key == value.key,
{
}

} // verus!
