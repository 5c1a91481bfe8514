use vstd::prelude::*;

use crate::errors::ErrorCode;
use crate::types::{Activity, ActivityCategory, UserProfile, UNIT_SCALE};

verus! {

/// Hourly reward rate of an activity category, in whole tokens per hour.
pub open spec fn base_rate_of(category: ActivityCategory) -> int {
    match category {
        ActivityCategory::Environmental => 40,
        ActivityCategory::Disaster => 80,
        ActivityCategory::Elderly => 50,
        ActivityCategory::Education => 60,
        ActivityCategory::WorkerSolidarity => 70,
    }
}

/// The reward an activity is worth at creation, in base units:
/// category rate times estimated hours, scaled to the token's smallest unit.
pub open spec fn base_reward_of(category: ActivityCategory, hours: u32) -> int {
    base_rate_of(category) * hours * (UNIT_SCALE as int)
}

/// Computes an activity's reward. Pure: invoked once at creation and stored
/// immutably on the record. All plausible hour counts fit comfortably in a
/// `u64`; the checked arithmetic is defense in depth, and an amount beyond
/// `u64::MAX` base units aborts with an arithmetic error.
pub fn calculate_base_reward(category: ActivityCategory, hours: u32) -> (result: Result<
    u64,
    ErrorCode,
>)
    ensures
        result is Ok <==> base_reward_of(category, hours) <= u64::MAX,
        result matches Ok(amount) ==> amount == base_reward_of(category, hours),
        result is Err ==> result == Err::<u64, ErrorCode>(ErrorCode::ArithmeticOverflow),
{
    let rate: u64 = match category {
        ActivityCategory::Environmental => 40,
        ActivityCategory::Disaster => 80,
        ActivityCategory::Elderly => 50,
        ActivityCategory::Education => 60,
        ActivityCategory::WorkerSolidarity => 70,
    };
    assert(base_rate_of(category) == rate);
    let per_hour: u64 = rate * UNIT_SCALE;
    proof {
        assert((hours as int) * (per_hour as int) <= u128::MAX as int) by (nonlinear_arith)
            requires
                hours <= u32::MAX,
                per_hour <= 80_000_000_000,
        ;
    }
    let wide: u128 = (hours as u128) * (per_hour as u128);
    proof {
        assert(wide as int == base_reward_of(category, hours)) by (nonlinear_arith)
            requires
                wide as int == (hours as int) * (per_hour as int),
                per_hour as int == (rate as int) * (UNIT_SCALE as int),
                base_reward_of(category, hours) == (rate as int) * (hours as int) * (
                UNIT_SCALE as int),
        ;
    }
    if wide > u64::MAX as u128 {
        Err(ErrorCode::ArithmeticOverflow)
    } else {
        Ok(wide as u64)
    }
}

/// Whether crediting `activity`'s reward to `profile` stays within every
/// counter's range.
pub open spec fn reward_credit_fits(profile: UserProfile, activity: Activity) -> bool {
    &&& profile.tokens_earned + activity.reward_amount <= u64::MAX
    &&& profile.hours_worked + activity.estimated_hours <= u64::MAX
    &&& profile.activities_completed < u64::MAX
    &&& profile.reputation_score + 10 <= u64::MAX
}

/// How a profile looks after one activity reward: tokens, hours, one
/// completed activity and a flat ten reputation points credited, everything
/// else untouched.
pub open spec fn reward_credited(before: UserProfile, after: UserProfile, activity: Activity) -> bool {
    &&& after.tokens_earned == before.tokens_earned + activity.reward_amount
    &&& after.hours_worked == before.hours_worked + activity.estimated_hours
    &&& after.activities_completed == before.activities_completed + 1
    &&& after.reputation_score == before.reputation_score + 10
    &&& after.owner == before.owner
    &&& after.union_membership == before.union_membership
    &&& after.strike_participation == before.strike_participation
    &&& after.class_solidarity_score == before.class_solidarity_score
    &&& after.last_activity == before.last_activity
}

/// Credits a verified activity's reward to the completing member's profile:
/// the reward amount, the estimated hours, one completed activity and a flat
/// ten reputation points, all checked. Either every field is credited or,
/// on arithmetic overflow, none is.
pub fn distribute_activity_reward(activity: &Activity, profile: &mut UserProfile) -> (result:
    Result<(), ErrorCode>)
    ensures
        result is Ok <==> reward_credit_fits(*old(profile), *activity),
        result is Err ==> result == Err::<(), ErrorCode>(ErrorCode::ArithmeticOverflow)
            && *final(profile) == *old(profile),
        result is Ok ==> reward_credited(*old(profile), *final(profile), *activity),
{
    if activity.reward_amount > u64::MAX - profile.tokens_earned {
        return Err(ErrorCode::ArithmeticOverflow);
    }
    if activity.estimated_hours as u64 > u64::MAX - profile.hours_worked {
        return Err(ErrorCode::ArithmeticOverflow);
    }
    if profile.activities_completed == u64::MAX {
        return Err(ErrorCode::ArithmeticOverflow);
    }
    if profile.reputation_score > u64::MAX - 10 {
        return Err(ErrorCode::ArithmeticOverflow);
    }
    profile.tokens_earned = profile.tokens_earned + activity.reward_amount;
    profile.hours_worked = profile.hours_worked + activity.estimated_hours as u64;
    profile.activities_completed = profile.activities_completed + 1;
    profile.reputation_score = profile.reputation_score + 10;
    Ok(())
}

} // verus!
