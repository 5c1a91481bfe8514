use vstd::prelude::*;

use crate::errors::ErrorCode;
use crate::math::{isqrt, isqrt_spec};
use crate::types::{
    identity_set_contains, lemma_distinct_push, Identity, Proposal, ProposalStatus, ProposalType,
    MAX_PROPOSAL_DESCRIPTION_CHARS, MAX_PROPOSAL_VOTERS, MAX_TITLE_CHARS, VOTING_PERIOD_SECONDS,
};

verus! {

/// The weight one vote carries: the integer square root of the token amount
/// the voter commits, dampening large-holder dominance quadratically.
pub open spec fn vote_weight_of(token_amount: u64) -> int {
    isqrt_spec(token_amount as nat) as int
}

/// Creates a governance proposal: open for votes from its creation until a
/// fixed 72-hour deadline, with empty tallies and an empty voter set.
pub fn create_proposal(
    creator: Identity,
    title: String,
    description: String,
    proposal_type: ProposalType,
    now: i64,
) -> (proposal: Proposal)
    requires
        title@.len() <= MAX_TITLE_CHARS as int,
        description@.len() <= MAX_PROPOSAL_DESCRIPTION_CHARS as int,
        now <= i64::MAX - VOTING_PERIOD_SECONDS,
    ensures
        proposal.creator == creator,
        proposal.title == title,
        proposal.description == description,
        proposal.proposal_type == proposal_type,
        proposal.votes_for == 0,
        proposal.votes_against == 0,
        proposal.status == ProposalStatus::Active,
        proposal.created_at == now,
        proposal.voting_deadline == now + VOTING_PERIOD_SECONDS,
        proposal.voters@.len() == 0,
        proposal.wf(),
{
    Proposal {
        creator,
        title,
        description,
        proposal_type,
        votes_for: 0,
        votes_against: 0,
        status: ProposalStatus::Active,
        created_at: now,
        voting_deadline: now + VOTING_PERIOD_SECONDS,
        voters: Vec::new(),
    }
}

/// One member's vote on an active proposal, cast strictly before the voting
/// deadline and at most once per voter. The vote's weight is the integer
/// square root of the committed token amount; no custody of that amount is
/// enforced here. Any failure leaves the proposal untouched.
pub fn vote_on_proposal(
    proposal: &mut Proposal,
    voter: Identity,
    vote: bool,
    token_amount: u64,
    now: i64,
) -> (result: Result<(), ErrorCode>)
    requires
        old(proposal).wf(),
    ensures
        old(proposal).status != ProposalStatus::Active ==> result == Err::<(), ErrorCode>(
            ErrorCode::ProposalNotActive,
        ),
        old(proposal).status == ProposalStatus::Active && now >= old(proposal).voting_deadline
            ==> result == Err::<(), ErrorCode>(ErrorCode::VotingDeadlinePassed),
        old(proposal).status == ProposalStatus::Active && now < old(proposal).voting_deadline
            && old(proposal).voters@.contains(voter) ==> result == Err::<(), ErrorCode>(
            ErrorCode::AlreadyVoted,
        ),
        old(proposal).status == ProposalStatus::Active && now < old(proposal).voting_deadline
            && !old(proposal).voters@.contains(voter) && old(proposal).voters@.len()
            >= MAX_PROPOSAL_VOTERS as int ==> result == Err::<(), ErrorCode>(
            ErrorCode::CapacityExceeded,
        ),
        old(proposal).status == ProposalStatus::Active && now < old(proposal).voting_deadline
            && !old(proposal).voters@.contains(voter) && old(proposal).voters@.len()
            < MAX_PROPOSAL_VOTERS as int && (if vote {
            old(proposal).votes_for + vote_weight_of(token_amount) > u64::MAX
        } else {
            old(proposal).votes_against + vote_weight_of(token_amount) > u64::MAX
        }) ==> result == Err::<(), ErrorCode>(ErrorCode::ArithmeticOverflow),
        result is Err ==> *final(proposal) == *old(proposal),
        result is Ok <==> {
            &&& old(proposal).status == ProposalStatus::Active
            &&& now < old(proposal).voting_deadline
            &&& !old(proposal).voters@.contains(voter)
            &&& old(proposal).voters@.len() < MAX_PROPOSAL_VOTERS as int
            &&& (if vote {
                old(proposal).votes_for + vote_weight_of(token_amount) <= u64::MAX
            } else {
                old(proposal).votes_against + vote_weight_of(token_amount) <= u64::MAX
            })
        },
        result is Ok ==> {
            &&& final(proposal).voters@ == old(proposal).voters@.push(voter)
            &&& final(proposal).wf()
            &&& (vote ==> final(proposal).votes_for == old(proposal).votes_for + vote_weight_of(
                token_amount,
            ) && final(proposal).votes_against == old(proposal).votes_against)
            &&& (!vote ==> final(proposal).votes_against == old(proposal).votes_against
                + vote_weight_of(token_amount) && final(proposal).votes_for == old(
                proposal,
            ).votes_for)
            &&& final(proposal).creator == old(proposal).creator
            &&& final(proposal).title == old(proposal).title
            &&& final(proposal).description == old(proposal).description
            &&& final(proposal).proposal_type == old(proposal).proposal_type
            &&& final(proposal).status == old(proposal).status
            &&& final(proposal).created_at == old(proposal).created_at
            &&& final(proposal).voting_deadline == old(proposal).voting_deadline
        },
{
    if proposal.status != ProposalStatus::Active {
        return Err(ErrorCode::ProposalNotActive);
    }
    if now >= proposal.voting_deadline {
        return Err(ErrorCode::VotingDeadlinePassed);
    }
    if identity_set_contains(&proposal.voters, voter) {
        return Err(ErrorCode::AlreadyVoted);
    }
    if proposal.voters.len() >= MAX_PROPOSAL_VOTERS {
        return Err(ErrorCode::CapacityExceeded);
    }
    let vote_weight: u64 = isqrt(token_amount);
    if vote {
        if vote_weight > u64::MAX - proposal.votes_for {
            return Err(ErrorCode::ArithmeticOverflow);
        }
        proposal.votes_for = proposal.votes_for + vote_weight;
    } else {
        if vote_weight > u64::MAX - proposal.votes_against {
            return Err(ErrorCode::ArithmeticOverflow);
        }
        proposal.votes_against = proposal.votes_against + vote_weight;
    }
    proof {
        lemma_distinct_push(proposal.voters@, voter);
    }
    proposal.voters.push(voter);
    Ok(())
}

} // verus!
