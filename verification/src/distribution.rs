use vstd::prelude::*;

use vstd::arithmetic::div_mod::{lemma_div_pos_is_pos, lemma_multiply_divide_lt};

use crate::errors::ErrorCode;
use crate::types::{DaoState, UserProfile, UBI_DAILY_AMOUNT, UBI_ELIGIBILITY_WINDOW_SECONDS};

verus! {

/// Whether wealth decay applies at all: there must be a published median
/// balance, and the profile must hold more than it.
pub open spec fn decay_triggered(dao: DaoState, profile: UserProfile) -> bool {
    dao.median_balance > 0 && profile.tokens_earned > dao.median_balance
}

/// The decay rate applied to a balance above the median, in basis points:
/// five basis points per whole multiple of the median held.
pub open spec fn decay_rate_of(tokens: u64, median: u64) -> int
    recommends
        median > 0,
{
    (tokens as int / median as int) * 5
}

/// The amount removed by one decay application, in base units.
pub open spec fn decay_amount_of(tokens: u64, median: u64) -> int
    recommends
        median > 0,
{
    tokens as int * decay_rate_of(tokens, median) / 10000
}

/// As long as the balance stays below two thousand times the median (a decay
/// rate under 10000 basis points), one decay application removes strictly
/// less than the whole balance: decay alone can neither zero nor invert a
/// balance.
pub proof fn lemma_decay_amount_below_balance(tokens: u64, median: u64)
    requires
        median > 0,
        tokens > median,
        decay_rate_of(tokens, median) < 10000,
    ensures
        0 <= decay_amount_of(tokens, median) < tokens,
{
    let t = tokens as int;
    let r = decay_rate_of(tokens, median);
    lemma_div_pos_is_pos(t, median as int);
    assert(r >= 0);
    assert(t * r >= 0) by (nonlinear_arith)
        requires
            t >= 0,
            r >= 0,
    ;
    lemma_div_pos_is_pos(t * r, 10000);
    assert(t * r < 10000 * t) by (nonlinear_arith)
        requires
            t > 0,
            0 <= r < 10000,
    ;
    lemma_multiply_divide_lt(t * r, 10000, t);
}

/// Credits the fixed universal income to a profile that has been active
/// within the last seven days. The last-activity stamp itself is not
/// refreshed, and the ledger record's supply counters are not consulted or
/// altered: supply accounting here is a declared extension point. Any
/// failure leaves the profile untouched.
pub fn distribute_ubi(_dao: &DaoState, profile: &mut UserProfile, now: i64) -> (result: Result<
    (),
    ErrorCode,
>)
    requires
        now >= i64::MIN + UBI_ELIGIBILITY_WINDOW_SECONDS,
    ensures
        old(profile).last_activity <= now - UBI_ELIGIBILITY_WINDOW_SECONDS ==> result == Err::<
            (),
            ErrorCode,
        >(ErrorCode::UserNotActive),
        old(profile).last_activity > now - UBI_ELIGIBILITY_WINDOW_SECONDS && old(
            profile,
        ).tokens_earned + UBI_DAILY_AMOUNT > u64::MAX ==> result == Err::<(), ErrorCode>(
            ErrorCode::ArithmeticOverflow,
        ),
        result is Err ==> *final(profile) == *old(profile),
        result is Ok <==> old(profile).last_activity > now - UBI_ELIGIBILITY_WINDOW_SECONDS && old(
            profile,
        ).tokens_earned + UBI_DAILY_AMOUNT <= u64::MAX,
        result is Ok ==> {
            &&& final(profile).tokens_earned == old(profile).tokens_earned + UBI_DAILY_AMOUNT
            &&& final(profile).last_activity == old(profile).last_activity
            &&& final(profile).owner == old(profile).owner
            &&& final(profile).union_membership == old(profile).union_membership
            &&& final(profile).hours_worked == old(profile).hours_worked
            &&& final(profile).activities_completed == old(profile).activities_completed
            &&& final(profile).reputation_score == old(profile).reputation_score
            &&& final(profile).strike_participation == old(profile).strike_participation
            &&& final(profile).class_solidarity_score == old(profile).class_solidarity_score
        },
{
    let week_ago: i64 = now - UBI_ELIGIBILITY_WINDOW_SECONDS;
    if !(profile.last_activity > week_ago) {
        return Err(ErrorCode::UserNotActive);
    }
    if profile.tokens_earned > u64::MAX - UBI_DAILY_AMOUNT {
        return Err(ErrorCode::ArithmeticOverflow);
    }
    profile.tokens_earned = profile.tokens_earned + UBI_DAILY_AMOUNT;
    Ok(())
}

/// Applies progressive wealth decay to one profile: a no-op unless the
/// ledger records a positive median balance and the profile holds more than
/// it; otherwise the balance loses five basis points per whole multiple of
/// the median held. The removed amount is destined for a collective
/// treasury, whose crediting is a declared extension point with no
/// transition yet. Any failure leaves the profile untouched.
pub fn apply_token_decay(dao: &DaoState, profile: &mut UserProfile) -> (result: Result<
    (),
    ErrorCode,
>)
    ensures
        !decay_triggered(*dao, *old(profile)) ==> result is Ok && *final(profile) == *old(profile),
        decay_triggered(*dao, *old(profile)) ==> {
            let rate = decay_rate_of(old(profile).tokens_earned, dao.median_balance);
            let amount = decay_amount_of(old(profile).tokens_earned, dao.median_balance);
            if rate <= u64::MAX && old(profile).tokens_earned * rate <= u64::MAX && amount <= old(
                profile,
            ).tokens_earned {
                &&& result is Ok
                &&& final(profile).tokens_earned == old(profile).tokens_earned - amount
                &&& final(profile).owner == old(profile).owner
                &&& final(profile).union_membership == old(profile).union_membership
                &&& final(profile).hours_worked == old(profile).hours_worked
                &&& final(profile).activities_completed == old(profile).activities_completed
                &&& final(profile).reputation_score == old(profile).reputation_score
                &&& final(profile).strike_participation == old(profile).strike_participation
                &&& final(profile).class_solidarity_score == old(profile).class_solidarity_score
                &&& final(profile).last_activity == old(profile).last_activity
            } else {
                result == Err::<(), ErrorCode>(ErrorCode::ArithmeticOverflow) && *final(profile)
                    == *old(profile)
            }
        },
{
    if dao.median_balance > 0 && profile.tokens_earned > dao.median_balance {
        let tokens: u64 = profile.tokens_earned;
        let ratio: u64 = tokens / dao.median_balance;
        if ratio > u64::MAX / 5 {
            return Err(ErrorCode::ArithmeticOverflow);
        }
        let rate: u64 = ratio * 5;
        proof {
            assert((tokens as int) * (rate as int) <= u128::MAX as int) by (nonlinear_arith)
                requires
                    tokens <= u64::MAX,
                    rate <= u64::MAX,
            ;
        }
        let wide: u128 = (tokens as u128) * (rate as u128);
        if wide > u64::MAX as u128 {
            return Err(ErrorCode::ArithmeticOverflow);
        }
        let amount: u64 = (wide / 10000) as u64;
        if amount > tokens {
            return Err(ErrorCode::ArithmeticOverflow);
        }
        profile.tokens_earned = tokens - amount;
    }
    Ok(())
}

} // verus!
