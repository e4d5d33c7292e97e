//! The reasons for which the contract refuses a request.
use vstd::prelude::*;

verus! {

/// Why a request to the contract is refused. A refused request changes
/// nothing: no issue is stored, no token moves.
#[derive(Clone, Copy, Debug, PartialEq, Eq, Structural)]
pub enum StakeError {
    /// A new issue must offer a bounty greater than zero.
    BountyNotPositive,
    /// A new issue cannot ask for a negative stake.
    NegativeStake,
    /// A new issue must run for a positive duration.
    ZeroDuration,
    /// An issue with this id is already stored.
    IssueAlreadyExists,
    /// No issue with this id is stored.
    IssueNotFound,
    /// Only an open issue can be claimed.
    IssueNotOpen,
    /// An issue cannot be claimed once its sprint deadline has come.
    SprintDeadlinePassed,
    /// Only a claimed issue can be slashed.
    NotInClaimedState,
    /// A claim can only be slashed once its deadline has passed.
    SlashBeforeDeadline,
    /// Only a claimed issue can be merged and rewarded.
    MergeUnclaimed,
    /// The stored issue names no contributor where one is needed.
    MissingContributor,
    /// Only a claimed issue can be forfeited or extended.
    IssueNotClaimed,
    /// The claim's deadline has already passed.
    DeadlinePassed,
    /// A claim can be extended only once.
    NoFurtherExtensions,
}

/// The text that the contract aborts with for each refusal.
pub open spec fn error_text(e: StakeError) -> Seq<char> {
    match e {
        StakeError::BountyNotPositive => "Bounty must be positive"@,
        StakeError::NegativeStake => "Stake cannot be negative"@,
        StakeError::ZeroDuration => "Duration must be greater than zero"@,
        StakeError::IssueAlreadyExists => "Issue already exists"@,
        StakeError::IssueNotFound => "Issue not found"@,
        StakeError::IssueNotOpen => "Issue is not open for claims"@,
        StakeError::SprintDeadlinePassed => "Issue sprint deadline has already passed"@,
        StakeError::NotInClaimedState => "Issue is not in a claimed state"@,
        StakeError::SlashBeforeDeadline => "Cannot slash before deadline expiration"@,
        StakeError::MergeUnclaimed => "Issue cannot be merged unless claimed"@,
        StakeError::MissingContributor => "Malformed state: Missing contributor"@,
        StakeError::IssueNotClaimed => "Issue is not claimed"@,
        StakeError::DeadlinePassed => "Deadline has already passed"@,
        StakeError::NoFurtherExtensions => "No further extensions allowed"@,
    }
}

impl StakeError {
    /// The message with which the contract aborts on this refusal.
    pub fn message(&self) -> (text: &'static str)
        ensures
            text@ == error_text(*self),
    {
        match self {
            StakeError::BountyNotPositive => "Bounty must be positive",
            StakeError::NegativeStake => "Stake cannot be negative",
            StakeError::ZeroDuration => "Duration must be greater than zero",
            StakeError::IssueAlreadyExists => "Issue already exists",
            StakeError::IssueNotFound => "Issue not found",
            StakeError::IssueNotOpen => "Issue is not open for claims",
            StakeError::SprintDeadlinePassed => "Issue sprint deadline has already passed",
            StakeError::NotInClaimedState => "Issue is not in a claimed state",
            StakeError::SlashBeforeDeadline => "Cannot slash before deadline expiration",
            StakeError::MergeUnclaimed => "Issue cannot be merged unless claimed",
            StakeError::MissingContributor => "Malformed state: Missing contributor",
            StakeError::IssueNotClaimed => "Issue is not claimed",
            StakeError::DeadlinePassed => "Deadline has already passed",
            StakeError::NoFurtherExtensions => "No further extensions allowed",
        }
    }
}

} // verus!
