//! The `estimatefees` handler.  Four fee-rate estimates are requested from
//! the backend, one per (confirmation-target, estimation-mode) pair; a leg
//! the backend has no estimate for falls back to a fixed default.  The reply
//! is derived from the four rates by fixed policy arithmetic: integer,
//! truncating division, in satoshis per kilovirtualbyte throughout.

use vstd::prelude::*;

verus! {

/// Fee rate substituted for a leg the backend has no estimate for, in
/// satoshis per kilovirtualbyte.
pub const DEFAULT_FEE_RATE: u64 = 1000;

/// Estimation mode the backend is asked to use.
#[derive(Clone, Copy, Debug, PartialEq, Eq)]
pub enum EstimateMode {
    Conservative,
    Economical,
}

/// One fee-rate query: a confirmation target and an estimation mode.
#[derive(Clone, Copy, Debug, PartialEq, Eq)]
pub struct FeeQuery {
    pub target: u16,
    pub mode: EstimateMode,
}

/// The four queries issued, in order: highest (2, conservative), urgent
/// (6, economical), normal (12, economical), slow (100, economical).
pub fn fee_queries() -> (r: Vec<FeeQuery>)
    ensures
        r@.len() == 4,
        r@[0] == (FeeQuery { target: 2, mode: EstimateMode::Conservative }),
        r@[1] == (FeeQuery { target: 6, mode: EstimateMode::Economical }),
        r@[2] == (FeeQuery { target: 12, mode: EstimateMode::Economical }),
        r@[3] == (FeeQuery { target: 100, mode: EstimateMode::Economical }),
{
    let mut v: Vec<FeeQuery> = Vec::new();
    v.push(FeeQuery { target: 2, mode: EstimateMode::Conservative });
    v.push(FeeQuery { target: 6, mode: EstimateMode::Economical });
    v.push(FeeQuery { target: 12, mode: EstimateMode::Economical });
    v.push(FeeQuery { target: 100, mode: EstimateMode::Economical });
    v
}

/// Policy constants the schedule is derived with.  Fixed today, named here
/// so they can become configurable without touching the arithmetic.
#[derive(Clone, Copy, Debug, PartialEq, Eq)]
pub struct FeePolicy {
    /// Percentage applied to the urgent rate for the unilateral-close leg.
    pub commit_fee_percent: u64,
    /// Multiplier applied to the highest rate for the acceptance ceiling.
    pub max_fee_multiplier: u64,
}

impl FeePolicy {
    /// The standard policy: 100 percent commit fee, ceiling at ten times
    /// the highest rate.
    pub fn standard() -> (r: FeePolicy)
        ensures
            r.commit_fee_percent == 100,
            r.max_fee_multiplier == 10,
    {
        FeePolicy { commit_fee_percent: 100, max_fee_multiplier: 10 }
    }
}

/// A backend estimate with the default substituted when there is none.
pub open spec fn defaulted(estimate: Option<u64>) -> u64 {
    match estimate {
        Some(rate) => rate,
        None => DEFAULT_FEE_RATE,
    }
}

/// Substitute the default for a missing estimate.
pub fn fee_or_default(estimate: Option<u64>) -> (r: u64)
    ensures
        r == defaulted(estimate),
{
    match estimate {
        Some(rate) => rate,
        None => DEFAULT_FEE_RATE,
    }
}

/// The reply of `estimatefees`: all legs in satoshis per kilovirtualbyte.
#[derive(Clone, Copy, Debug, PartialEq, Eq)]
pub struct FeeReply {
    pub opening: u64,
    pub mutual_close: u64,
    pub unilateral_close: u64,
    pub delayed_to_us: u64,
    pub htlc_resolution: u64,
    pub penalty: u64,
    pub min_acceptable: u64,
    pub max_acceptable: u64,
}

/// The schedule derived from the four rates.  Meaningful when the two
/// products fit a 64-bit value, which the executable paths require.
pub open spec fn fee_schedule(
    highest: u64,
    urgent: u64,
    normal: u64,
    slow: u64,
    policy: FeePolicy,
) -> FeeReply {
    FeeReply {
        opening: normal,
        mutual_close: slow,
        unilateral_close: ((urgent * policy.commit_fee_percent) / 100) as u64,
        delayed_to_us: normal,
        htlc_resolution: urgent,
        penalty: normal,
        min_acceptable: (slow / 2) as u64,
        max_acceptable: (highest * policy.max_fee_multiplier) as u64,
    }
}

/// Derive the schedule from the four defaulted rates.
pub fn compute_fee_schedule(
    highest: u64,
    urgent: u64,
    normal: u64,
    slow: u64,
    policy: &FeePolicy,
) -> (r: FeeReply)
    requires
        urgent * policy.commit_fee_percent <= u64::MAX,
        highest * policy.max_fee_multiplier <= u64::MAX,
    ensures
        r == fee_schedule(highest, urgent, normal, slow, *policy),
        r.opening == normal,
        r.mutual_close == slow,
        r.unilateral_close == (urgent * policy.commit_fee_percent) / 100,
        r.delayed_to_us == normal,
        r.htlc_resolution == urgent,
        r.penalty == normal,
        r.min_acceptable == slow / 2,
        r.max_acceptable == highest * policy.max_fee_multiplier,
{
    FeeReply {
        opening: normal,
        mutual_close: slow,
        unilateral_close: (urgent * policy.commit_fee_percent) / 100,
        delayed_to_us: normal,
        htlc_resolution: urgent,
        penalty: normal,
        min_acceptable: slow / 2,
        max_acceptable: highest * policy.max_fee_multiplier,
    }
}

/// The whole handler on the backend's four answers: default each missing
/// estimate, then derive the schedule.  `None` only when a product would
/// not fit a 64-bit value.
pub fn estimate_fees(
    highest: Option<u64>,
    urgent: Option<u64>,
    normal: Option<u64>,
    slow: Option<u64>,
    policy: &FeePolicy,
) -> (r: Option<FeeReply>)
    ensures
        defaulted(urgent) * policy.commit_fee_percent <= u64::MAX && defaulted(highest)
            * policy.max_fee_multiplier <= u64::MAX ==> r == Some(
            fee_schedule(
                defaulted(highest),
                defaulted(urgent),
                defaulted(normal),
                defaulted(slow),
                *policy,
            ),
        ),
        !(defaulted(urgent) * policy.commit_fee_percent <= u64::MAX && defaulted(highest)
            * policy.max_fee_multiplier <= u64::MAX) ==> r is None,
{
    let h = fee_or_default(highest);
    let u = fee_or_default(urgent);
    let n = fee_or_default(normal);
    let s = fee_or_default(slow);
    match (u.checked_mul(policy.commit_fee_percent), h.checked_mul(policy.max_fee_multiplier)) {
        (Some(_), Some(_)) => Some(compute_fee_schedule(h, u, n, s, policy)),
        _ => None,
    }
}

/// Law: with a backend whose estimates do not increase as the confirmation
/// target grows (highest >= urgent >= normal >= slow) and a ceiling
/// multiplier of at least one, the schedule keeps
/// `min_acceptable <= opening <= max_acceptable`.
pub proof fn lemma_fee_schedule_ordering(
    highest: u64,
    urgent: u64,
    normal: u64,
    slow: u64,
    policy: FeePolicy,
)
    requires
        slow <= normal,
        normal <= urgent,
        urgent <= highest,
        policy.max_fee_multiplier >= 1,
        highest * policy.max_fee_multiplier <= u64::MAX,
    ensures
        fee_schedule(highest, urgent, normal, slow, policy).min_acceptable <= fee_schedule(
            highest,
            urgent,
            normal,
            slow,
            policy,
        ).opening,
        fee_schedule(highest, urgent, normal, slow, policy).opening <= fee_schedule(
            highest,
            urgent,
            normal,
            slow,
            policy,
        ).max_acceptable,
{
    assert(highest * policy.max_fee_multiplier >= highest) by (nonlinear_arith)
        requires
            policy.max_fee_multiplier >= 1,
    ;
}

} // verus!
