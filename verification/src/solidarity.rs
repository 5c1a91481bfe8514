use vstd::prelude::*;

use crate::errors::ErrorCode;
use crate::types::{
    identity_set_contains, lemma_distinct_push, Identity, SkillType, Strike, UserProfile,
    WorkerCoop, MAX_STRIKE_SUPPORTERS, MAX_TITLE_CHARS, STRIKE_DAILY_SUPPORT,
};

verus! {

/// How a profile looks after one solidarity action: its class-solidarity
/// score raised by a fixed amount, everything else untouched.
pub open spec fn solidarity_score_bumped(before: UserProfile, after: UserProfile, bump: int) -> bool {
    &&& after.class_solidarity_score == before.class_solidarity_score + bump
    &&& after.owner == before.owner
    &&& after.union_membership == before.union_membership
    &&& after.tokens_earned == before.tokens_earned
    &&& after.hours_worked == before.hours_worked
    &&& after.activities_completed == before.activities_completed
    &&& after.reputation_score == before.reputation_score
    &&& after.strike_participation == before.strike_participation
    &&& after.last_activity == before.last_activity
}

/// Creates a strike record: fixed daily support, a legitimacy score of 100
/// for a union-verified action and 50 otherwise, and an empty fund and
/// supporter set.
pub fn create_strike(
    creator: Identity,
    company: String,
    union_verification: bool,
    participant_count: u32,
    now: i64,
) -> (strike: Strike)
    requires
        company@.len() <= MAX_TITLE_CHARS as int,
    ensures
        strike.creator == creator,
        strike.company == company,
        strike.union_verification == union_verification,
        strike.participant_count == participant_count,
        strike.daily_support == STRIKE_DAILY_SUPPORT,
        strike.legitimacy_score == if union_verification {
            100int
        } else {
            50int
        },
        strike.total_fund == 0,
        strike.strike_duration == 0,
        strike.supporters@.len() == 0,
        strike.timestamp == now,
        strike.wf(),
{
    Strike {
        creator,
        company,
        union_verification,
        participant_count,
        daily_support: STRIKE_DAILY_SUPPORT,
        legitimacy_score: if union_verification {
            100
        } else {
            50
        },
        total_fund: 0,
        strike_duration: 0,
        supporters: Vec::new(),
        timestamp: now,
    }
}

/// One member's support for a strike: the member joins the supporter set if
/// not already in it (supporting twice is allowed and only adds funds), the
/// amount joins the fund, and the supporter's class-solidarity score rises
/// by a flat 30. Any failure leaves both records untouched.
pub fn support_strike(
    strike: &mut Strike,
    profile: &mut UserProfile,
    supporter: Identity,
    amount: u64,
) -> (result: Result<(), ErrorCode>)
    requires
        old(strike).wf(),
    ensures
        !old(strike).supporters@.contains(supporter) && old(strike).supporters@.len()
            >= MAX_STRIKE_SUPPORTERS as int ==> result == Err::<(), ErrorCode>(
            ErrorCode::CapacityExceeded,
        ),
        (old(strike).supporters@.contains(supporter) || old(strike).supporters@.len()
            < MAX_STRIKE_SUPPORTERS as int) && (old(strike).total_fund + amount > u64::MAX || old(
            profile,
        ).class_solidarity_score + 30 > u64::MAX) ==> result == Err::<(), ErrorCode>(
            ErrorCode::ArithmeticOverflow,
        ),
        result is Err ==> *final(strike) == *old(strike) && *final(profile) == *old(profile),
        result is Ok <==> {
            &&& (old(strike).supporters@.contains(supporter) || old(strike).supporters@.len()
                < MAX_STRIKE_SUPPORTERS as int)
            &&& old(strike).total_fund + amount <= u64::MAX
            &&& old(profile).class_solidarity_score + 30 <= u64::MAX
        },
        result is Ok ==> {
            &&& (old(strike).supporters@.contains(supporter) ==> final(strike).supporters@ == old(
                strike,
            ).supporters@)
            &&& (!old(strike).supporters@.contains(supporter) ==> final(strike).supporters@ == old(
                strike,
            ).supporters@.push(supporter))
            &&& final(strike).total_fund == old(strike).total_fund + amount
            &&& final(strike).wf()
            &&& final(strike).creator == old(strike).creator
            &&& final(strike).company == old(strike).company
            &&& final(strike).union_verification == old(strike).union_verification
            &&& final(strike).participant_count == old(strike).participant_count
            &&& final(strike).daily_support == old(strike).daily_support
            &&& final(strike).legitimacy_score == old(strike).legitimacy_score
            &&& final(strike).strike_duration == old(strike).strike_duration
            &&& final(strike).timestamp == old(strike).timestamp
            &&& solidarity_score_bumped(*old(profile), *final(profile), 30)
        },
{
    let is_new = !identity_set_contains(&strike.supporters, supporter);
    if is_new && strike.supporters.len() >= MAX_STRIKE_SUPPORTERS {
        return Err(ErrorCode::CapacityExceeded);
    }
    if amount > u64::MAX - strike.total_fund {
        return Err(ErrorCode::ArithmeticOverflow);
    }
    if profile.class_solidarity_score > u64::MAX - 30 {
        return Err(ErrorCode::ArithmeticOverflow);
    }
    if is_new {
        proof {
            lemma_distinct_push(strike.supporters@, supporter);
        }
        strike.supporters.push(supporter);
    }
    strike.total_fund = strike.total_fund + amount;
    profile.class_solidarity_score = profile.class_solidarity_score + 30;
    Ok(())
}

/// Creates a worker cooperative: the founding member is both sole founder
/// and sole member, funding starts at zero, and the sustainability score
/// starts neutral at 50. Membership and voting beyond the founder are
/// declared extension points with no transition yet.
pub fn create_worker_coop(
    founder: Identity,
    business_plan: String,
    funding_goal: u64,
    skill_requirements: Vec<SkillType>,
    now: i64,
) -> (coop: WorkerCoop)
    ensures
        coop.founders@.len() == 1 && coop.founders@[0] == founder,
        coop.business_plan == business_plan,
        coop.funding_goal == funding_goal,
        coop.current_funding == 0,
        coop.skill_requirements == skill_requirements,
        coop.democratic_votes == 0,
        coop.sustainability_score == 50,
        coop.members@.len() == 1 && coop.members@[0] == founder,
        coop.timestamp == now,
{
    let mut founders: Vec<Identity> = Vec::new();
    founders.push(founder);
    let mut members: Vec<Identity> = Vec::new();
    members.push(founder);
    WorkerCoop {
        founders,
        business_plan,
        funding_goal,
        current_funding: 0,
        skill_requirements,
        democratic_votes: 0,
        sustainability_score: 50,
        members,
        timestamp: now,
    }
}

/// One member's funding of a cooperative: the amount joins the current
/// funding and the funder's class-solidarity score rises by a flat 40. The
/// funder does not join the members or founders: funding and membership are
/// decoupled by design. Any failure leaves both records untouched.
pub fn fund_worker_coop(coop: &mut WorkerCoop, profile: &mut UserProfile, amount: u64) -> (result:
    Result<(), ErrorCode>)
    ensures
        result is Ok <==> old(coop).current_funding + amount <= u64::MAX && old(
            profile,
        ).class_solidarity_score + 40 <= u64::MAX,
        result is Err ==> result == Err::<(), ErrorCode>(ErrorCode::ArithmeticOverflow)
            && *final(coop) == *old(coop) && *final(profile) == *old(profile),
        result is Ok ==> {
            &&& final(coop).current_funding == old(coop).current_funding + amount
            &&& final(coop).founders == old(coop).founders
            &&& final(coop).business_plan == old(coop).business_plan
            &&& final(coop).funding_goal == old(coop).funding_goal
            &&& final(coop).skill_requirements == old(coop).skill_requirements
            &&& final(coop).democratic_votes == old(coop).democratic_votes
            &&& final(coop).sustainability_score == old(coop).sustainability_score
            &&& final(coop).members == old(coop).members
            &&& final(coop).timestamp == old(coop).timestamp
            &&& solidarity_score_bumped(*old(profile), *final(profile), 40)
        },
{
    if amount > u64::MAX - coop.current_funding {
        return Err(ErrorCode::ArithmeticOverflow);
    }
    if profile.class_solidarity_score > u64::MAX - 40 {
        return Err(ErrorCode::ArithmeticOverflow);
    }
    coop.current_funding = coop.current_funding + amount;
    profile.class_solidarity_score = profile.class_solidarity_score + 40;
    Ok(())
}

} // verus!
