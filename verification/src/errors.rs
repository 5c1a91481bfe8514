use vstd::prelude::*;

verus! {

/// Reasons a transition can abort. Every error aborts the whole transition:
/// the contracts of the transition functions promise that on any `Err` the
/// records handed in are left exactly as they were.
#[derive(Clone, Copy, PartialEq, Eq, Structural, Debug)]
pub enum ErrorCode {
    /// An activity description exceeded the 200-character budget.
    DescriptionTooLong,
    /// The caller already verified this activity.
    AlreadyVerified,
    /// The activity is no longer (or not yet) pending.
    ActivityNotPending,
    /// The proposal is not active.
    ProposalNotActive,
    /// The proposal's voting deadline has passed.
    VotingDeadlinePassed,
    /// The caller already voted on this proposal.
    AlreadyVoted,
    /// The profile has not been active recently enough to receive income.
    UserNotActive,
    /// Working hours exceed the allowed limit.
    ExploitationDetected,
    /// Insufficient funds for the operation.
    InsufficientFunds,
    /// The caller is not authorized for the operation.
    Unauthorized,
    /// A membership set is already at its declared capacity budget.
    CapacityExceeded,
    /// An addition, subtraction or multiplication would overflow a counter.
    ArithmeticOverflow,
}

impl ErrorCode {
    /// A human-readable message accompanying each abort.
    pub fn message(&self) -> &'static str {
        match self {
            ErrorCode::DescriptionTooLong => "Description is too long. Maximum 200 characters allowed.",
            ErrorCode::AlreadyVerified => "User has already verified this activity.",
            ErrorCode::ActivityNotPending => "Activity is not in pending status.",
            ErrorCode::ProposalNotActive => "Proposal is not active.",
            ErrorCode::VotingDeadlinePassed => "Voting deadline has passed.",
            ErrorCode::AlreadyVoted => "User has already voted on this proposal.",
            ErrorCode::UserNotActive => "User is not active enough to receive UBI.",
            ErrorCode::ExploitationDetected => "Exploitation detected - working hours exceed limit.",
            ErrorCode::InsufficientFunds => "Insufficient funds for operation.",
            ErrorCode::Unauthorized => "Unauthorized operation.",
            ErrorCode::CapacityExceeded => "Membership set has reached its capacity budget.",
            ErrorCode::ArithmeticOverflow => "Arithmetic overflow in token accounting.",
        }
    }
}

} // verus!
