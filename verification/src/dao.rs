use vstd::prelude::*;

use crate::errors::ErrorCode;
use crate::types::{DaoState, Identity, UserProfile, INITIAL_TOKEN_SUPPLY};

verus! {

/// Creates the ledger-wide singleton record: the full token supply is minted
/// on paper and every counter starts at zero.
pub fn initialize_dao(authority: Identity) -> (state: DaoState)
    ensures
        state.authority == authority,
        state.total_supply == INITIAL_TOKEN_SUPPLY,
        state.circulating_supply == 0,
        state.median_balance == 0,
        state.active_users == 0,
        state.total_activities == 0,
{
    DaoState {
        authority,
        total_supply: INITIAL_TOKEN_SUPPLY,
        circulating_supply: 0,
        median_balance: 0,
        active_users: 0,
        total_activities: 0,
    }
}

/// Registers a member: a fresh profile with neutral reputation, stamped with
/// the registration time, and one more active user on the ledger record.
/// Aborts, touching nothing, if the active-user counter would overflow.
pub fn create_user_profile(
    dao: &mut DaoState,
    owner: Identity,
    union_membership: bool,
    now: i64,
) -> (result: Result<UserProfile, ErrorCode>)
    ensures
        result is Ok <==> old(dao).active_users < u64::MAX,
        result is Err ==> result == Err::<UserProfile, ErrorCode>(ErrorCode::ArithmeticOverflow)
            && *final(dao) == *old(dao),
        result matches Ok(profile) ==> {
            &&& profile.owner == owner
            &&& profile.union_membership == union_membership
            &&& profile.tokens_earned == 0
            &&& profile.hours_worked == 0
            &&& profile.activities_completed == 0
            &&& profile.reputation_score == 50
            &&& profile.strike_participation == 0
            &&& profile.class_solidarity_score == 0
            &&& profile.last_activity == now
            &&& final(dao).active_users == old(dao).active_users + 1
            &&& final(dao).authority == old(dao).authority
            &&& final(dao).total_supply == old(dao).total_supply
            &&& final(dao).circulating_supply == old(dao).circulating_supply
            &&& final(dao).median_balance == old(dao).median_balance
            &&& final(dao).total_activities == old(dao).total_activities
        },
{
    if dao.active_users == u64::MAX {
        return Err(ErrorCode::ArithmeticOverflow);
    }
    dao.active_users = dao.active_users + 1;
    Ok(
        UserProfile {
            owner,
            union_membership,
            tokens_earned: 0,
            hours_worked: 0,
            activities_completed: 0,
            reputation_score: 50,
            strike_participation: 0,
            class_solidarity_score: 0,
            last_activity: now,
        },
    )
}

} // verus!
