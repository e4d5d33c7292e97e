//! When each request is accepted, which refusal each rejected request gets,
//! and what an accepted request does, stated directly over its inputs.
use vstd::prelude::*;

use crate::contract::WaveStakeContract;
use crate::error::StakeError;
use crate::issue::Issue;
use crate::issue::IssueStatus;
use crate::issue::Step;
use crate::issue::Transfer;

verus! {

/// `a + b` as a ledger time: the sum, or `u64::MAX` when it does not fit.
pub open spec fn time_after(a: u64, b: u64) -> int {
    if a + b <= u64::MAX {
        a + b
    } else {
        u64::MAX as int
    }
}

/// An amount that is not negative, stopped at `i128::MAX`.
pub open spec fn capped(x: int) -> int {
    if x <= i128::MAX {
        x
    } else {
        i128::MAX as int
    }
}

/// Creating an issue succeeds exactly when the bounty is positive, the stake
/// is not negative, the duration is positive and the id is unused; any
/// stake from zero up is accepted, whatever the bounty. The new issue keeps
/// the given amounts, is open with no contributor and an empty pool, and
/// runs one sprint from now; the sponsor pays in the bounty. Otherwise the
/// first failing condition, in that order, names the refusal.
pub proof fn lemma_create_issue_decision<A>(
    sponsor: A,
    token: A,
    bounty_amount: i128,
    stake_required: i128,
    duration: u64,
    now: u64,
    already_exists: bool,
)
    ensures
        ({
            let r = WaveStakeContract::created(
                sponsor,
                token,
                bounty_amount,
                stake_required,
                duration,
                now,
                already_exists,
            );
            &&& r is Ok <==> (bounty_amount > 0 && stake_required >= 0 && duration > 0
                && !already_exists)
            &&& bounty_amount <= 0 ==> r == Err::<Step<A>, StakeError>(
                StakeError::BountyNotPositive,
            )
            &&& (bounty_amount > 0 && stake_required < 0) ==> r == Err::<Step<A>, StakeError>(
                StakeError::NegativeStake,
            )
            &&& (bounty_amount > 0 && stake_required >= 0 && duration == 0) ==> r == Err::<
                Step<A>,
                StakeError,
            >(StakeError::ZeroDuration)
            &&& (bounty_amount > 0 && stake_required >= 0 && duration > 0 && already_exists)
                ==> r == Err::<Step<A>, StakeError>(StakeError::IssueAlreadyExists)
            &&& r matches Ok(step) ==> {
                &&& step.issue.sponsor == sponsor
                &&& step.issue.token == token
                &&& step.issue.bounty_amount == bounty_amount
                &&& step.issue.stake_required == stake_required
                &&& step.issue.deadline == time_after(now, duration)
                &&& step.issue.sprint_duration == duration
                &&& step.issue.status == IssueStatus::Open
                &&& step.issue.current_contributor is None
                &&& step.issue.slashed_pool == 0
                &&& step.issue.extensions_used == 0
                &&& step.transfer == Transfer::Deposit(bounty_amount)
            }
        }),
{
}

/// A claim succeeds exactly when the issue is stored, open, and its sprint
/// deadline has not come, whatever its stake. The issue becomes claimed by
/// the claimant with no extension, everything else kept; the claimant pays
/// in the stake, or nothing for a zero stake.
pub proof fn lemma_claim_issue_decision<A>(stored: Option<Issue<A>>, contributor: A, now: u64)
    ensures
        ({
            let r = WaveStakeContract::claimed(stored, contributor, now);
            &&& r is Ok <==> (stored matches Some(issue) && issue.status == IssueStatus::Open
                && now < issue.deadline)
            &&& stored is None ==> r == Err::<Step<A>, StakeError>(StakeError::IssueNotFound)
            &&& stored matches Some(issue) ==> {
                &&& issue.status != IssueStatus::Open ==> r == Err::<Step<A>, StakeError>(
                    StakeError::IssueNotOpen,
                )
                &&& (issue.status == IssueStatus::Open && now >= issue.deadline) ==> r == Err::<
                    Step<A>,
                    StakeError,
                >(StakeError::SprintDeadlinePassed)
                &&& r matches Ok(step) ==> {
                    &&& step.issue == Issue {
                        status: IssueStatus::Claimed,
                        current_contributor: Some(contributor),
                        extensions_used: 0,
                        ..issue
                    }
                    &&& issue.stake_required > 0 ==> step.transfer == Transfer::Deposit(
                        issue.stake_required,
                    )
                    &&& issue.stake_required <= 0 ==> step.transfer == Transfer::Nothing
                }
            }
        }),
{
}

/// A slash succeeds exactly when the issue is stored, claimed, and its
/// deadline has come, whatever its stake (zero included). The ghost is
/// removed: the issue opens with no contributor and no extension, a new
/// sprint runs from now, and the held stake is added to the pool (the pool
/// stays put for a zero stake, and stops at `i128::MAX`). No token moves.
pub proof fn lemma_slash_ghost_decision<A>(stored: Option<Issue<A>>, now: u64)
    ensures
        ({
            let r = WaveStakeContract::slashed(stored, now);
            &&& r is Ok <==> (stored matches Some(issue) && issue.status == IssueStatus::Claimed
                && now >= issue.deadline)
            &&& stored is None ==> r == Err::<Step<A>, StakeError>(StakeError::IssueNotFound)
            &&& stored matches Some(issue) ==> {
                &&& issue.status != IssueStatus::Claimed ==> r == Err::<Step<A>, StakeError>(
                    StakeError::NotInClaimedState,
                )
                &&& (issue.status == IssueStatus::Claimed && now < issue.deadline) ==> r == Err::<
                    Step<A>,
                    StakeError,
                >(StakeError::SlashBeforeDeadline)
                &&& r matches Ok(step) ==> {
                    &&& step.issue.sponsor == issue.sponsor
                    &&& step.issue.token == issue.token
                    &&& step.issue.bounty_amount == issue.bounty_amount
                    &&& step.issue.stake_required == issue.stake_required
                    &&& step.issue.sprint_duration == issue.sprint_duration
                    &&& step.issue.deadline == time_after(now, issue.sprint_duration)
                    &&& step.issue.status == IssueStatus::Open
                    &&& step.issue.current_contributor is None
                    &&& step.issue.extensions_used == 0
                    &&& step.transfer == Transfer::Nothing
                    &&& (issue.stake_required >= 0 && issue.slashed_pool >= 0)
                        ==> step.issue.slashed_pool == capped(
                        issue.slashed_pool + capped(issue.held_stake()),
                    )
                }
            }
        }),
{
    if let Some(issue) = stored {
        if issue.extensions_used > 0 {
            assert(issue.held_stake() == 2 * issue.stake_required);
        } else {
            assert(issue.held_stake() == issue.stake_required);
        }
    }
}

/// A merge succeeds exactly when the issue is stored, claimed, and names its
/// contributor. The issue becomes resolved, everything else kept, and the
/// contributor is paid the bounty, the pool and the held stake (stopping at
/// `i128::MAX`).
pub proof fn lemma_merge_and_reward_decision<A>(stored: Option<Issue<A>>)
    ensures
        ({
            let r = WaveStakeContract::merged(stored);
            &&& r is Ok <==> (stored matches Some(issue) && issue.status == IssueStatus::Claimed
                && issue.current_contributor is Some)
            &&& stored is None ==> r == Err::<Step<A>, StakeError>(StakeError::IssueNotFound)
            &&& stored matches Some(issue) ==> {
                &&& issue.status != IssueStatus::Claimed ==> r == Err::<Step<A>, StakeError>(
                    StakeError::MergeUnclaimed,
                )
                &&& (issue.status == IssueStatus::Claimed && issue.current_contributor is None)
                    ==> r == Err::<Step<A>, StakeError>(StakeError::MissingContributor)
                &&& r matches Ok(step) ==> {
                    &&& step.issue == Issue { status: IssueStatus::Resolved, ..issue }
                    &&& (issue.stake_required >= 0 && issue.slashed_pool >= 0
                        && issue.bounty_amount >= 0) ==> step.transfer == Transfer::Payout(
                        capped(
                            issue.bounty_amount + issue.slashed_pool + capped(issue.held_stake()),
                        ) as i128,
                    )
                }
            }
        }),
{
    if let Some(issue) = stored {
        if issue.extensions_used > 0 {
            assert(issue.held_stake() == 2 * issue.stake_required);
        } else {
            assert(issue.held_stake() == issue.stake_required);
        }
    }
}

/// A forfeit succeeds exactly when the issue is stored, names a contributor,
/// is claimed, and its deadline has not come, whatever its stake (zero
/// included). The claim is given up: the issue opens with no contributor
/// and no extension, keeping its deadline and terms. Half the held stake
/// (rounded down) goes back to the contributor, by a payout when it is
/// positive, and the rest joins the pool; the event names the contributor,
/// the issue, the returned share and the time.
pub proof fn lemma_graceful_forfeit_decision<A>(stored: Option<Issue<A>>, issue_id: u64, now: u64)
    ensures
        ({
            let r = WaveStakeContract::forfeited(stored, issue_id, now);
            &&& r is Ok <==> (stored matches Some(issue) && issue.current_contributor is Some
                && issue.status == IssueStatus::Claimed && now < issue.deadline)
            &&& stored is None ==> r is Err && r->Err_0 == StakeError::IssueNotFound
            &&& stored matches Some(issue) ==> {
                &&& issue.current_contributor is None ==> r is Err && r->Err_0
                    == StakeError::MissingContributor
                &&& (issue.current_contributor is Some && issue.status != IssueStatus::Claimed)
                    ==> r is Err && r->Err_0 == StakeError::IssueNotClaimed
                &&& (issue.current_contributor is Some && issue.status == IssueStatus::Claimed
                    && now >= issue.deadline) ==> r is Err && r->Err_0
                    == StakeError::DeadlinePassed
                &&& r matches Ok((step, event)) ==> {
                    &&& step.issue.sponsor == issue.sponsor
                    &&& step.issue.token == issue.token
                    &&& step.issue.bounty_amount == issue.bounty_amount
                    &&& step.issue.stake_required == issue.stake_required
                    &&& step.issue.sprint_duration == issue.sprint_duration
                    &&& step.issue.deadline == issue.deadline
                    &&& step.issue.status == IssueStatus::Open
                    &&& step.issue.current_contributor is None
                    &&& step.issue.extensions_used == 0
                    &&& event.contributor == issue.current_contributor.unwrap()
                    &&& event.issue_id == issue_id
                    &&& event.timestamp == now
                    &&& event.returned_stake > 0 ==> step.transfer == Transfer::Payout(
                        event.returned_stake,
                    )
                    &&& event.returned_stake <= 0 ==> step.transfer == Transfer::Nothing
                    &&& (issue.stake_required >= 0 && issue.slashed_pool >= 0) ==> {
                        let locked = capped(issue.held_stake());
                        &&& event.returned_stake == locked / 2
                        &&& step.issue.slashed_pool == capped(
                            issue.slashed_pool + locked - locked / 2,
                        )
                    }
                }
            }
        }),
{
    if let Some(issue) = stored {
        if issue.extensions_used > 0 {
            assert(issue.held_stake() == 2 * issue.stake_required);
        } else {
            assert(issue.held_stake() == issue.stake_required);
        }
    }
}

/// An extension succeeds exactly when the issue is stored, names a
/// contributor, has not been extended, its deadline has not come, and it is
/// claimed, for any additional duration and any stake (zero included). The
/// deadline moves by the additional duration (stopping at `u64::MAX`), the
/// extension is used up, and everything else is kept; the contributor pays
/// in one more stake, or nothing for a zero stake. Otherwise the first
/// failing condition, in that order, names the refusal.
pub proof fn lemma_request_extension_decision<A>(
    stored: Option<Issue<A>>,
    additional_duration: u64,
    now: u64,
)
    ensures
        ({
            let r = WaveStakeContract::extended(stored, additional_duration, now);
            &&& r is Ok <==> (stored matches Some(issue) && issue.current_contributor is Some
                && issue.extensions_used == 0 && now < issue.deadline && issue.status
                == IssueStatus::Claimed)
            &&& stored is None ==> r == Err::<Step<A>, StakeError>(StakeError::IssueNotFound)
            &&& stored matches Some(issue) ==> {
                &&& issue.current_contributor is None ==> r == Err::<Step<A>, StakeError>(
                    StakeError::MissingContributor,
                )
                &&& (issue.current_contributor is Some && issue.extensions_used != 0) ==> r
                    == Err::<Step<A>, StakeError>(StakeError::NoFurtherExtensions)
                &&& (issue.current_contributor is Some && issue.extensions_used == 0 && now
                    >= issue.deadline) ==> r == Err::<Step<A>, StakeError>(
                    StakeError::DeadlinePassed,
                )
                &&& (issue.current_contributor is Some && issue.extensions_used == 0 && now
                    < issue.deadline && issue.status != IssueStatus::Claimed) ==> r == Err::<
                    Step<A>,
                    StakeError,
                >(StakeError::IssueNotClaimed)
                &&& r matches Ok(step) ==> {
                    &&& step.issue.deadline == time_after(issue.deadline, additional_duration)
                    &&& step.issue == Issue {
                        deadline: step.issue.deadline,
                        extensions_used: 1,
                        ..issue
                    }
                    &&& issue.stake_required > 0 ==> step.transfer == Transfer::Deposit(
                        issue.stake_required,
                    )
                    &&& issue.stake_required <= 0 ==> step.transfer == Transfer::Nothing
                }
            }
        }),
{
}

} // verus!
