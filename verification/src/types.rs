use vstd::prelude::*;

verus! {

/// Number of verifier responses that resolves an activity, and at the same
/// time the storage budget of its verifier set: once that many verifiers have
/// spoken the activity is settled (or permanently stuck) and no further
/// verification is admitted.
pub const MAX_VERIFICATION_COUNT: u8 = 3;

/// Fixed income credited by one universal-income distribution, in base units.
pub const UBI_DAILY_AMOUNT: u64 = 10_000_000_000;

/// Total token supply minted at initialization: one billion tokens with nine
/// decimal places, in base units.
pub const INITIAL_TOKEN_SUPPLY: u64 = 1_000_000_000_000_000_000;

/// Base units per whole token (nine decimal places).
pub const UNIT_SCALE: u64 = 1_000_000_000;

/// Fixed daily support amount attached to every strike, in base units.
pub const STRIKE_DAILY_SUPPORT: u64 = 80_000_000_000;

/// Length of a proposal's voting window, in seconds (72 hours).
pub const VOTING_PERIOD_SECONDS: i64 = 259_200;

/// Recent-activity window for universal-income eligibility, in seconds
/// (7 days).
pub const UBI_ELIGIBILITY_WINDOW_SECONDS: i64 = 604_800;

/// Storage budget of a strike's supporter set.
pub const MAX_STRIKE_SUPPORTERS: usize = 100;

/// Storage budget of a proposal's voter set.
pub const MAX_PROPOSAL_VOTERS: usize = 1000;

/// Character budget of an activity description.
pub const MAX_DESCRIPTION_CHARS: usize = 200;

/// Character budget of a proposal title, and of a strike's company name.
pub const MAX_TITLE_CHARS: usize = 100;

/// Character budget of a proposal description.
pub const MAX_PROPOSAL_DESCRIPTION_CHARS: usize = 500;

/// An opaque, unforgeable caller/owner reference. The host environment
/// authenticates callers (by public key in production) and hands the core a
/// stable numeric handle for each; the core only ever compares identities for
/// equality and stores them in membership sets.
#[derive(Clone, Copy, PartialEq, Eq, Structural, Debug)]
pub struct Identity {
    pub id: u64,
}

/// A sequence of identities that holds no identity twice.
pub open spec fn distinct_identities(s: Seq<Identity>) -> bool {
    forall|i: int, j: int| 0 <= i < j < s.len() ==> s[i] != s[j]
}

/// Appending an identity that a distinct set does not yet hold keeps the set
/// distinct.
pub proof fn lemma_distinct_push(s: Seq<Identity>, x: Identity)
    requires
        distinct_identities(s),
        !s.contains(x),
    ensures
        distinct_identities(s.push(x)),
{
    let t = s.push(x);
    assert forall|i: int, j: int| 0 <= i < j < t.len() implies t[i] != t[j] by {
        if j == s.len() {
            assert(t[i] == s[i]);
            if s[i] == x {
                assert(s.contains(x));
            }
        } else {
            assert(t[i] == s[i] && t[j] == s[j]);
        }
    }
}

/// Linear membership scan over an identity set.
pub fn identity_set_contains(set: &Vec<Identity>, x: Identity) -> (present: bool)
    ensures
        present == set@.contains(x),
{
    let mut i: usize = 0;
    while i < set.len()
        invariant
            i <= set@.len(),
            forall|k: int| 0 <= k < i ==> set@[k] != x,
        decreases set@.len() - i,
    {
        if set[i].id == x.id {
            assert(set@[i as int] == x);
            return true;
        }
        i = i + 1;
    }
    false
}

/// Category of a community activity; fixes its hourly reward rate.
#[derive(Clone, Copy, PartialEq, Eq, Structural, Debug)]
pub enum ActivityCategory {
    Environmental,
    Disaster,
    Elderly,
    Education,
    WorkerSolidarity,
}

/// Lifecycle of an activity. `Verified` and `Rejected` are terminal.
#[derive(Clone, Copy, PartialEq, Eq, Structural, Debug)]
pub enum ActivityStatus {
    Pending,
    Verified,
    Rejected,
}

/// Skill a worker cooperative declares that it needs.
#[derive(Clone, Copy, PartialEq, Eq, Structural, Debug)]
pub enum SkillType {
    Technical,
    Administrative,
    Legal,
    Marketing,
    Production,
    Education,
    Healthcare,
    Construction,
}

/// Kind of change a governance proposal asks for.
#[derive(Clone, Copy, PartialEq, Eq, Structural, Debug)]
pub enum ProposalType {
    TokenomicsChange,
    PolicyUpdate,
    ResourceAllocation,
    TechnicalUpgrade,
    CommunityGuidelines,
}

/// Lifecycle of a proposal. Only `Active` is currently reachable: no
/// transition resolves a proposal, a deliberately unfinished extension point.
#[derive(Clone, Copy, PartialEq, Eq, Structural, Debug)]
pub enum ProposalStatus {
    Active,
    Passed,
    Rejected,
    Executed,
}

/// Where an activity takes place. Coordinates are fixed-point degrees scaled
/// by 1,000,000 (micro-degrees), so that no floating point enters the
/// committed state path.
#[derive(Clone, PartialEq, Eq, Debug)]
pub struct Location {
    pub latitude_micro: i64,
    pub longitude_micro: i64,
    pub address: String,
}

/// The ledger-wide singleton record.
#[derive(Clone, Copy, PartialEq, Eq, Structural, Debug)]
pub struct DaoState {
    pub authority: Identity,
    pub total_supply: u64,
    pub circulating_supply: u64,
    pub median_balance: u64,
    pub active_users: u64,
    pub total_activities: u64,
}

/// One member's profile. Created on registration, never destroyed.
#[derive(Clone, Copy, PartialEq, Eq, Structural, Debug)]
pub struct UserProfile {
    pub owner: Identity,
    pub union_membership: bool,
    pub tokens_earned: u64,
    pub hours_worked: u64,
    pub activities_completed: u64,
    pub reputation_score: u64,
    pub strike_participation: u64,
    pub class_solidarity_score: u64,
    pub last_activity: i64,
}

/// A community activity awaiting (or past) multi-party verification.
/// `description` has a 200-character budget, enforced at creation.
#[derive(Clone, PartialEq, Eq, Debug)]
pub struct Activity {
    pub creator: Identity,
    pub category: ActivityCategory,
    pub description: String,
    pub location: Location,
    pub estimated_hours: u32,
    pub status: ActivityStatus,
    pub verification_count: u8,
    pub verifiers: Vec<Identity>,
    pub reward_amount: u64,
    pub timestamp: i64,
}

impl Activity {
    /// Well-formedness, established at creation and preserved by every
    /// transition: the verifier set stays within its budget and holds no
    /// identity twice, the yes-vote count never exceeds the number of
    /// verifiers that have spoken, and a verified activity carries a full
    /// quorum of yes votes.
    pub open spec fn wf(self) -> bool {
        &&& self.verifiers@.len() <= MAX_VERIFICATION_COUNT as int
        &&& distinct_identities(self.verifiers@)
        &&& self.verification_count as int <= self.verifiers@.len()
        &&& (self.status == ActivityStatus::Verified ==> self.verification_count
            == MAX_VERIFICATION_COUNT)
    }
}

/// A labor action collecting solidarity funds. `company` has a 100-character
/// budget, documented rather than enforced (nothing reads it).
#[derive(Clone, PartialEq, Eq, Debug)]
pub struct Strike {
    pub creator: Identity,
    pub company: String,
    pub union_verification: bool,
    pub participant_count: u32,
    pub daily_support: u64,
    pub legitimacy_score: u8,
    pub total_fund: u64,
    pub strike_duration: u32,
    pub supporters: Vec<Identity>,
    pub timestamp: i64,
}

impl Strike {
    /// Well-formedness: the supporter set stays within its budget and holds
    /// no identity twice.
    pub open spec fn wf(self) -> bool {
        &&& self.supporters@.len() <= MAX_STRIKE_SUPPORTERS as int
        &&& distinct_identities(self.supporters@)
    }
}

/// A worker cooperative collecting funding. The membership and voting fields
/// are declared extension points: no transition mutates them yet.
#[derive(Clone, PartialEq, Eq, Debug)]
pub struct WorkerCoop {
    pub founders: Vec<Identity>,
    pub business_plan: String,
    pub funding_goal: u64,
    pub current_funding: u64,
    pub skill_requirements: Vec<SkillType>,
    pub democratic_votes: u32,
    pub sustainability_score: u8,
    pub members: Vec<Identity>,
    pub timestamp: i64,
}

/// A governance proposal with quadratic-weighted tallies. `title` has a
/// 100-character budget and `description` a 500-character budget.
#[derive(Clone, PartialEq, Eq, Debug)]
pub struct Proposal {
    pub creator: Identity,
    pub title: String,
    pub description: String,
    pub proposal_type: ProposalType,
    pub votes_for: u64,
    pub votes_against: u64,
    pub status: ProposalStatus,
    pub created_at: i64,
    pub voting_deadline: i64,
    pub voters: Vec<Identity>,
}

impl Proposal {
    /// Well-formedness: the voter set stays within its budget and holds no
    /// identity twice.
    pub open spec fn wf(self) -> bool {
        &&& self.voters@.len() <= MAX_PROPOSAL_VOTERS as int
        &&& distinct_identities(self.voters@)
    }
}

} // verus!
