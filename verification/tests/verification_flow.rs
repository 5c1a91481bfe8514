use transcendence_dao::dao::{create_user_profile, initialize_dao};
use transcendence_dao::errors::ErrorCode;
use transcendence_dao::rewards::calculate_base_reward;
use transcendence_dao::types::{Activity, ActivityCategory, ActivityStatus, Identity, Location};
use transcendence_dao::verification::{create_activity, verify_activity};

fn ident(id: u64) -> Identity {
    Identity { id }
}

fn somewhere() -> Location {
    Location {
        latitude_micro: 40_712_800,
        longitude_micro: -74_006_000,
        address: String::from("Union Hall, 123 Main St"),
    }
}

fn fresh_activity(category: ActivityCategory, hours: u32) -> Activity {
    let mut dao = initialize_dao(ident(1));
    create_activity(
        &mut dao,
        ident(2),
        category,
        String::from("community work"),
        somewhere(),
        hours,
        1_700_000_000,
    )
    .unwrap()
}

#[test]
fn dao_initialization_mints_supply_and_zeroes_counters() {
    let dao = initialize_dao(ident(7));
    assert_eq!(dao.authority, ident(7));
    assert_eq!(dao.total_supply, 1_000_000_000_000_000_000);
    assert_eq!(dao.circulating_supply, 0);
    assert_eq!(dao.median_balance, 0);
    assert_eq!(dao.active_users, 0);
    assert_eq!(dao.total_activities, 0);
}

#[test]
fn user_registration_starts_neutral_and_counts_active_users() {
    let mut dao = initialize_dao(ident(1));
    let profile = create_user_profile(&mut dao, ident(5), true, 1_700_000_000).unwrap();
    assert_eq!(profile.owner, ident(5));
    assert!(profile.union_membership);
    assert_eq!(profile.tokens_earned, 0);
    assert_eq!(profile.hours_worked, 0);
    assert_eq!(profile.activities_completed, 0);
    assert_eq!(profile.reputation_score, 50);
    assert_eq!(profile.strike_participation, 0);
    assert_eq!(profile.class_solidarity_score, 0);
    assert_eq!(profile.last_activity, 1_700_000_000);
    assert_eq!(dao.active_users, 1);
}

#[test]
fn user_registration_fails_when_counter_is_saturated() {
    let mut dao = initialize_dao(ident(1));
    dao.active_users = u64::MAX;
    let result = create_user_profile(&mut dao, ident(5), false, 0);
    assert_eq!(result.unwrap_err(), ErrorCode::ArithmeticOverflow);
    assert_eq!(dao.active_users, u64::MAX);
}

#[test]
fn base_reward_rates_per_category() {
    assert_eq!(
        calculate_base_reward(ActivityCategory::Environmental, 1).unwrap(),
        40_000_000_000
    );
    assert_eq!(
        calculate_base_reward(ActivityCategory::Disaster, 1).unwrap(),
        80_000_000_000
    );
    assert_eq!(
        calculate_base_reward(ActivityCategory::Elderly, 1).unwrap(),
        50_000_000_000
    );
    assert_eq!(
        calculate_base_reward(ActivityCategory::Education, 1).unwrap(),
        60_000_000_000
    );
    assert_eq!(
        calculate_base_reward(ActivityCategory::WorkerSolidarity, 1).unwrap(),
        70_000_000_000
    );
    assert_eq!(calculate_base_reward(ActivityCategory::Education, 0).unwrap(), 0);
}

#[test]
fn base_reward_overflows_at_implausible_hours() {
    let result = calculate_base_reward(ActivityCategory::Disaster, u32::MAX);
    assert_eq!(result.unwrap_err(), ErrorCode::ArithmeticOverflow);
}

#[test]
fn worker_solidarity_ten_hours_is_seven_hundred_tokens() {
    let mut dao = initialize_dao(ident(1));
    let activity = create_activity(
        &mut dao,
        ident(2),
        ActivityCategory::WorkerSolidarity,
        String::from("picket line support"),
        somewhere(),
        10,
        1_700_000_000,
    )
    .unwrap();
    assert_eq!(activity.reward_amount, 700_000_000_000);
    assert_eq!(activity.status, ActivityStatus::Pending);
    assert_eq!(activity.verification_count, 0);
    assert!(activity.verifiers.is_empty());
    assert_eq!(dao.total_activities, 1);
}

#[test]
fn overlong_description_is_refused_and_counts_nothing() {
    let mut dao = initialize_dao(ident(1));
    let result = create_activity(
        &mut dao,
        ident(2),
        ActivityCategory::Elderly,
        "x".repeat(201),
        somewhere(),
        3,
        1_700_000_000,
    );
    assert_eq!(result.unwrap_err(), ErrorCode::DescriptionTooLong);
    assert_eq!(dao.total_activities, 0);
}

#[test]
fn description_budget_boundary_is_inclusive() {
    let mut dao = initialize_dao(ident(1));
    let result = create_activity(
        &mut dao,
        ident(2),
        ActivityCategory::Elderly,
        "x".repeat(200),
        somewhere(),
        3,
        1_700_000_000,
    );
    assert!(result.is_ok());
    assert_eq!(dao.total_activities, 1);
}

#[test]
fn three_yes_votes_verify_and_credit_exactly_once() {
    let mut dao = initialize_dao(ident(1));
    let mut profile = create_user_profile(&mut dao, ident(2), false, 1_700_000_000).unwrap();
    let mut activity = fresh_activity(ActivityCategory::WorkerSolidarity, 10);
    assert!(verify_activity(&mut activity, &mut profile, ident(10), true).is_ok());
    assert!(verify_activity(&mut activity, &mut profile, ident(11), true).is_ok());
    assert_eq!(activity.status, ActivityStatus::Pending);
    assert_eq!(profile.tokens_earned, 0);
    assert!(verify_activity(&mut activity, &mut profile, ident(12), true).is_ok());
    assert_eq!(activity.status, ActivityStatus::Verified);
    assert_eq!(activity.verification_count, 3);
    assert_eq!(activity.verifiers.len(), 3);
    assert_eq!(profile.tokens_earned, 700_000_000_000);
    assert_eq!(profile.hours_worked, 10);
    assert_eq!(profile.activities_completed, 1);
    assert_eq!(profile.reputation_score, 60);

    // A fourth response must fail without crediting anything again.
    let snapshot = profile;
    let result = verify_activity(&mut activity, &mut profile, ident(13), true);
    assert_eq!(result.unwrap_err(), ErrorCode::ActivityNotPending);
    assert_eq!(profile, snapshot);
    assert_eq!(activity.verification_count, 3);
    assert_eq!(activity.verifiers.len(), 3);
}

#[test]
fn three_no_votes_reject_without_reward() {
    let mut dao = initialize_dao(ident(1));
    let mut profile = create_user_profile(&mut dao, ident(2), false, 1_700_000_000).unwrap();
    let mut activity = fresh_activity(ActivityCategory::Education, 4);
    assert!(verify_activity(&mut activity, &mut profile, ident(10), false).is_ok());
    assert!(verify_activity(&mut activity, &mut profile, ident(11), false).is_ok());
    assert!(verify_activity(&mut activity, &mut profile, ident(12), false).is_ok());
    assert_eq!(activity.status, ActivityStatus::Rejected);
    assert_eq!(activity.verification_count, 0);
    assert_eq!(activity.verifiers.len(), 3);
    assert_eq!(profile.tokens_earned, 0);
    let result = verify_activity(&mut activity, &mut profile, ident(13), true);
    assert_eq!(result.unwrap_err(), ErrorCode::ActivityNotPending);
}

#[test]
fn mixed_votes_stall_and_admit_no_fourth_verifier() {
    let mut dao = initialize_dao(ident(1));
    let mut profile = create_user_profile(&mut dao, ident(2), false, 1_700_000_000).unwrap();
    let mut activity = fresh_activity(ActivityCategory::Disaster, 2);
    assert!(verify_activity(&mut activity, &mut profile, ident(10), true).is_ok());
    assert!(verify_activity(&mut activity, &mut profile, ident(11), false).is_ok());
    assert!(verify_activity(&mut activity, &mut profile, ident(12), true).is_ok());
    assert_eq!(activity.status, ActivityStatus::Pending);
    assert_eq!(activity.verification_count, 2);
    assert_eq!(activity.verifiers.len(), 3);
    // The verifier set's budget is spent: the stalled state admits nobody else.
    let result = verify_activity(&mut activity, &mut profile, ident(13), true);
    assert_eq!(result.unwrap_err(), ErrorCode::CapacityExceeded);
    assert_eq!(activity.verifiers.len(), 3);
    assert_eq!(profile.tokens_earned, 0);
}

#[test]
fn a_verifier_cannot_respond_twice() {
    let mut dao = initialize_dao(ident(1));
    let mut profile = create_user_profile(&mut dao, ident(2), false, 1_700_000_000).unwrap();
    let mut activity = fresh_activity(ActivityCategory::Environmental, 5);
    assert!(verify_activity(&mut activity, &mut profile, ident(10), true).is_ok());
    let result = verify_activity(&mut activity, &mut profile, ident(10), false);
    assert_eq!(result.unwrap_err(), ErrorCode::AlreadyVerified);
    assert_eq!(activity.verification_count, 1);
    assert_eq!(activity.verifiers.len(), 1);
}

#[test]
fn quorum_aborts_atomically_when_crediting_would_overflow() {
    let mut dao = initialize_dao(ident(1));
    let mut profile = create_user_profile(&mut dao, ident(2), false, 1_700_000_000).unwrap();
    profile.tokens_earned = u64::MAX;
    let mut activity = fresh_activity(ActivityCategory::Elderly, 6);
    assert!(verify_activity(&mut activity, &mut profile, ident(10), true).is_ok());
    assert!(verify_activity(&mut activity, &mut profile, ident(11), true).is_ok());
    let result = verify_activity(&mut activity, &mut profile, ident(12), true);
    assert_eq!(result.unwrap_err(), ErrorCode::ArithmeticOverflow);
    // The failed third response changed neither record.
    assert_eq!(activity.status, ActivityStatus::Pending);
    assert_eq!(activity.verification_count, 2);
    assert_eq!(activity.verifiers.len(), 2);
    assert_eq!(profile.tokens_earned, u64::MAX);
    assert_eq!(profile.activities_completed, 0);
}

#[test]
fn error_messages_name_each_failure() {
    assert_eq!(
        ErrorCode::DescriptionTooLong.message(),
        "Description is too long. Maximum 200 characters allowed."
    );
    assert_eq!(
        ErrorCode::AlreadyVerified.message(),
        "User has already verified this activity."
    );
    assert_eq!(
        ErrorCode::ActivityNotPending.message(),
        "Activity is not in pending status."
    );
}
