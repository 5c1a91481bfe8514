use vstd::prelude::*;
use vstd::string::StrSliceExecFns;

use crate::errors::ErrorCode;
use crate::rewards::{
    base_reward_of, calculate_base_reward, distribute_activity_reward, reward_credit_fits,
    reward_credited,
};
use crate::types::{
    identity_set_contains, lemma_distinct_push, Activity, ActivityCategory, ActivityStatus,
    DaoState, Identity, Location, UserProfile, MAX_DESCRIPTION_CHARS, MAX_VERIFICATION_COUNT,
};

verus! {

/// The number of yes votes an activity would carry after one more
/// verification response.
pub open spec fn vote_count_after(activity: Activity, verified: bool) -> int {
    activity.verification_count + if verified {
        1int
    } else {
        0int
    }
}

/// Creates an activity: description within its 200-character budget, reward
/// computed once from category and estimated hours and stored immutably,
/// status pending with an empty verifier set, and one more activity counted
/// on the ledger record. Any failure leaves the ledger record untouched.
pub fn create_activity(
    dao: &mut DaoState,
    creator: Identity,
    category: ActivityCategory,
    description: String,
    location: Location,
    estimated_hours: u32,
    now: i64,
) -> (result: Result<Activity, ErrorCode>)
    ensures
        result is Ok <==> {
            &&& description@.len() <= MAX_DESCRIPTION_CHARS as int
            &&& base_reward_of(category, estimated_hours) <= u64::MAX
            &&& old(dao).total_activities < u64::MAX
        },
        description@.len() > MAX_DESCRIPTION_CHARS as int ==> result == Err::<Activity, ErrorCode>(
            ErrorCode::DescriptionTooLong,
        ),
        description@.len() <= MAX_DESCRIPTION_CHARS as int && (base_reward_of(
            category,
            estimated_hours,
        ) > u64::MAX || old(dao).total_activities == u64::MAX) ==> result == Err::<
            Activity,
            ErrorCode,
        >(ErrorCode::ArithmeticOverflow),
        result is Err ==> *final(dao) == *old(dao),
        result matches Ok(activity) ==> {
            &&& activity.creator == creator
            &&& activity.category == category
            &&& activity.description == description
            &&& activity.location == location
            &&& activity.estimated_hours == estimated_hours
            &&& activity.status == ActivityStatus::Pending
            &&& activity.verification_count == 0
            &&& activity.verifiers@.len() == 0
            &&& activity.reward_amount == base_reward_of(category, estimated_hours)
            &&& activity.timestamp == now
            &&& activity.wf()
            &&& final(dao).total_activities == old(dao).total_activities + 1
            &&& final(dao).authority == old(dao).authority
            &&& final(dao).total_supply == old(dao).total_supply
            &&& final(dao).circulating_supply == old(dao).circulating_supply
            &&& final(dao).median_balance == old(dao).median_balance
            &&& final(dao).active_users == old(dao).active_users
        },
{
    if description.as_str().unicode_len() > MAX_DESCRIPTION_CHARS {
        return Err(ErrorCode::DescriptionTooLong);
    }
    let reward_amount = match calculate_base_reward(category, estimated_hours) {
        Ok(amount) => amount,
        Err(e) => {
            return Err(e);
        },
    };
    if dao.total_activities == u64::MAX {
        return Err(ErrorCode::ArithmeticOverflow);
    }
    dao.total_activities = dao.total_activities + 1;
    Ok(
        Activity {
            creator,
            category,
            description,
            location,
            estimated_hours,
            status: ActivityStatus::Pending,
            verification_count: 0,
            verifiers: Vec::new(),
            reward_amount,
            timestamp: now,
        },
    )
}

/// One independent verifier's response on a pending activity. The verifier
/// joins the activity's verifier set whichever way the vote goes; a yes vote
/// raises the count. A third yes settles the activity as verified and credits
/// the reward to the completing member's profile in the same transition; a
/// third response with no yes votes at all settles it as rejected. Once three
/// verifiers have spoken, or the activity has left the pending state, every
/// further response is refused. Any failure leaves both records untouched.
pub fn verify_activity(
    activity: &mut Activity,
    profile: &mut UserProfile,
    verifier: Identity,
    verified: bool,
) -> (result: Result<(), ErrorCode>)
    requires
        old(activity).wf(),
    ensures
        old(activity).verifiers@.contains(verifier) ==> result == Err::<(), ErrorCode>(
            ErrorCode::AlreadyVerified,
        ),
        !old(activity).verifiers@.contains(verifier) && old(activity).status
            != ActivityStatus::Pending ==> result == Err::<(), ErrorCode>(
            ErrorCode::ActivityNotPending,
        ),
        !old(activity).verifiers@.contains(verifier) && old(activity).status
            == ActivityStatus::Pending && old(activity).verifiers@.len()
            >= MAX_VERIFICATION_COUNT as int ==> result == Err::<(), ErrorCode>(
            ErrorCode::CapacityExceeded,
        ),
        !old(activity).verifiers@.contains(verifier) && old(activity).status
            == ActivityStatus::Pending && old(activity).verifiers@.len()
            < MAX_VERIFICATION_COUNT as int && vote_count_after(*old(activity), verified)
            >= MAX_VERIFICATION_COUNT as int && !reward_credit_fits(*old(profile), *old(activity))
            ==> result == Err::<(), ErrorCode>(ErrorCode::ArithmeticOverflow),
        result is Err ==> *final(activity) == *old(activity) && *final(profile) == *old(profile),
        result is Ok <==> {
            &&& !old(activity).verifiers@.contains(verifier)
            &&& old(activity).status == ActivityStatus::Pending
            &&& old(activity).verifiers@.len() < MAX_VERIFICATION_COUNT as int
            &&& (vote_count_after(*old(activity), verified) >= MAX_VERIFICATION_COUNT as int
                ==> reward_credit_fits(*old(profile), *old(activity)))
        },
        result is Ok ==> {
            &&& final(activity).verifiers@ == old(activity).verifiers@.push(verifier)
            &&& final(activity).verification_count == vote_count_after(*old(activity), verified)
            &&& final(activity).wf()
            &&& final(activity).verification_count <= MAX_VERIFICATION_COUNT
            &&& final(activity).verifiers@.len() <= MAX_VERIFICATION_COUNT as int
            &&& final(activity).creator == old(activity).creator
            &&& final(activity).category == old(activity).category
            &&& final(activity).description == old(activity).description
            &&& final(activity).location == old(activity).location
            &&& final(activity).estimated_hours == old(activity).estimated_hours
            &&& final(activity).reward_amount == old(activity).reward_amount
            &&& final(activity).timestamp == old(activity).timestamp
            &&& (vote_count_after(*old(activity), verified) >= MAX_VERIFICATION_COUNT as int
                ==> final(activity).status == ActivityStatus::Verified && reward_credited(
                *old(profile),
                *final(profile),
                *old(activity),
            ))
            &&& (vote_count_after(*old(activity), verified) < MAX_VERIFICATION_COUNT as int ==> {
                &&& *final(profile) == *old(profile)
                &&& (old(activity).verifiers@.len() + 1 == MAX_VERIFICATION_COUNT as int
                    && vote_count_after(*old(activity), verified) == 0 ==> final(activity).status
                    == ActivityStatus::Rejected)
                &&& (!(old(activity).verifiers@.len() + 1 == MAX_VERIFICATION_COUNT as int
                    && vote_count_after(*old(activity), verified) == 0) ==> final(activity).status
                    == ActivityStatus::Pending)
            })
        },
{
    if identity_set_contains(&activity.verifiers, verifier) {
        return Err(ErrorCode::AlreadyVerified);
    }
    if activity.status != ActivityStatus::Pending {
        return Err(ErrorCode::ActivityNotPending);
    }
    if activity.verifiers.len() >= MAX_VERIFICATION_COUNT as usize {
        return Err(ErrorCode::CapacityExceeded);
    }
    let new_count: u8 = if verified {
        activity.verification_count + 1
    } else {
        activity.verification_count
    };
    if new_count >= MAX_VERIFICATION_COUNT {
        match distribute_activity_reward(activity, profile) {
            Err(e) => Err(e),
            Ok(()) => {
                proof {
                    lemma_distinct_push(activity.verifiers@, verifier);
                }
                activity.verifiers.push(verifier);
                activity.verification_count = new_count;
                activity.status = ActivityStatus::Verified;
                Ok(())
            },
        }
    } else {
        proof {
            lemma_distinct_push(activity.verifiers@, verifier);
        }
        activity.verifiers.push(verifier);
        activity.verification_count = new_count;
        if activity.verifiers.len() >= MAX_VERIFICATION_COUNT as usize && new_count == 0 {
            activity.status = ActivityStatus::Rejected;
        }
        Ok(())
    }
}

} // verus!
