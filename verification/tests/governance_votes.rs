use transcendence_dao::errors::ErrorCode;
use transcendence_dao::governance::{create_proposal, vote_on_proposal};
use transcendence_dao::math::isqrt;
use transcendence_dao::types::{Identity, Proposal, ProposalStatus, ProposalType};

fn ident(id: u64) -> Identity {
    Identity { id }
}

const CREATED_AT: i64 = 1_700_000_000;

fn fresh_proposal() -> Proposal {
    create_proposal(
        ident(1),
        String::from("Adopt new community guidelines"),
        String::from("A proposal to refresh the shared guidelines."),
        ProposalType::CommunityGuidelines,
        CREATED_AT,
    )
}

#[test]
fn proposal_opens_active_with_a_72_hour_deadline() {
    let proposal = fresh_proposal();
    assert_eq!(proposal.status, ProposalStatus::Active);
    assert_eq!(proposal.created_at, CREATED_AT);
    assert_eq!(proposal.voting_deadline, CREATED_AT + 259_200);
    assert_eq!(proposal.votes_for, 0);
    assert_eq!(proposal.votes_against, 0);
    assert!(proposal.voters.is_empty());
}

#[test]
fn integer_square_root_never_rounds_up() {
    assert_eq!(isqrt(0), 0);
    assert_eq!(isqrt(1), 1);
    assert_eq!(isqrt(3), 1);
    assert_eq!(isqrt(4), 2);
    assert_eq!(isqrt(99), 9);
    assert_eq!(isqrt(100), 10);
    assert_eq!(isqrt(101), 10);
    assert_eq!(isqrt(u64::MAX), 4_294_967_295);
}

#[test]
fn quadratic_weights_for_one_hundred_zero_and_ninety_nine_tokens() {
    let mut proposal = fresh_proposal();
    assert!(vote_on_proposal(&mut proposal, ident(10), true, 100, CREATED_AT + 10).is_ok());
    assert_eq!(proposal.votes_for, 10);
    assert!(vote_on_proposal(&mut proposal, ident(11), true, 0, CREATED_AT + 20).is_ok());
    assert_eq!(proposal.votes_for, 10);
    assert!(vote_on_proposal(&mut proposal, ident(12), false, 99, CREATED_AT + 30).is_ok());
    assert_eq!(proposal.votes_against, 9);
    assert_eq!(proposal.voters.len(), 3);
}

#[test]
fn votes_at_or_after_the_deadline_change_nothing() {
    let mut proposal = fresh_proposal();
    let deadline = proposal.voting_deadline;
    let result = vote_on_proposal(&mut proposal, ident(10), true, 100, deadline);
    assert_eq!(result.unwrap_err(), ErrorCode::VotingDeadlinePassed);
    let result = vote_on_proposal(&mut proposal, ident(10), true, 100, deadline + 50);
    assert_eq!(result.unwrap_err(), ErrorCode::VotingDeadlinePassed);
    assert_eq!(proposal.votes_for, 0);
    assert_eq!(proposal.votes_against, 0);
    assert!(proposal.voters.is_empty());
    // One second before the deadline still counts.
    assert!(vote_on_proposal(&mut proposal, ident(10), true, 100, deadline - 1).is_ok());
    assert_eq!(proposal.votes_for, 10);
}

#[test]
fn each_voter_is_counted_at_most_once() {
    let mut proposal = fresh_proposal();
    assert!(vote_on_proposal(&mut proposal, ident(10), true, 400, CREATED_AT + 10).is_ok());
    let result = vote_on_proposal(&mut proposal, ident(10), false, 400, CREATED_AT + 20);
    assert_eq!(result.unwrap_err(), ErrorCode::AlreadyVoted);
    assert_eq!(proposal.votes_for, 20);
    assert_eq!(proposal.votes_against, 0);
    assert_eq!(proposal.voters.len(), 1);
}

#[test]
fn votes_on_a_settled_proposal_are_refused() {
    let mut proposal = fresh_proposal();
    proposal.status = ProposalStatus::Passed;
    let result = vote_on_proposal(&mut proposal, ident(10), true, 100, CREATED_AT + 10);
    assert_eq!(result.unwrap_err(), ErrorCode::ProposalNotActive);
    assert_eq!(proposal.votes_for, 0);
}

#[test]
fn voter_set_budget_is_a_hard_failure() {
    let mut proposal = fresh_proposal();
    for i in 0..1000u64 {
        assert!(vote_on_proposal(&mut proposal, ident(1000 + i), true, 1, CREATED_AT + 10).is_ok());
    }
    assert_eq!(proposal.voters.len(), 1000);
    assert_eq!(proposal.votes_for, 1000);
    let result = vote_on_proposal(&mut proposal, ident(5000), true, 1, CREATED_AT + 10);
    assert_eq!(result.unwrap_err(), ErrorCode::CapacityExceeded);
    assert_eq!(proposal.voters.len(), 1000);
    assert_eq!(proposal.votes_for, 1000);
}

#[test]
fn tally_overflow_aborts_without_recording_the_voter() {
    let mut proposal = fresh_proposal();
    proposal.votes_against = u64::MAX;
    let result = vote_on_proposal(&mut proposal, ident(10), false, 9, CREATED_AT + 10);
    assert_eq!(result.unwrap_err(), ErrorCode::ArithmeticOverflow);
    assert_eq!(proposal.votes_against, u64::MAX);
    assert!(proposal.voters.is_empty());
    // The other tally is unaffected and still accepts votes.
    assert!(vote_on_proposal(&mut proposal, ident(10), true, 9, CREATED_AT + 10).is_ok());
    assert_eq!(proposal.votes_for, 3);
}
