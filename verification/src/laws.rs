//! Properties of the contract that span its requests.
use vstd::prelude::*;

use crate::arith::half_toward_zero;
use crate::contract::later;
use crate::contract::Request;
use crate::contract::WaveStakeContract;
use crate::error::StakeError;
use crate::issue::Issue;
use crate::issue::IssueStatus;
use crate::issue::Step;
use crate::issue::Transfer;

verus! {

/// For a stake that is not negative, the held stake is between the stake
/// and twice the stake, and the locked stake is the held stake when it fits.
proof fn lemma_held_stake_bounds<A>(issue: Issue<A>)
    requires
        issue.stake_required >= 0,
    ensures
        issue.held_stake() >= issue.stake_required,
        issue.held_stake() <= 2 * issue.stake_required,
        issue.extensions_used == 0 ==> issue.held_stake() == issue.stake_required,
        issue.extensions_used > 0 ==> issue.held_stake() == 2 * issue.stake_required,
        issue.held_stake() <= i128::MAX ==> issue.locked_stake() == issue.held_stake(),
        issue.locked_stake() >= 0,
{
    if issue.extensions_used > 0 {
        assert(issue.stake_required * issue.stake_multiplier() == 2 * issue.stake_required);
    } else {
        assert(issue.stake_required * issue.stake_multiplier() == issue.stake_required);
    }
}

/// Halving an amount that is not negative gives a share between zero and the amount.
proof fn lemma_half_bounds(x: int)
    requires
        x >= 0,
    ensures
        half_toward_zero(x) == x / 2,
        0 <= half_toward_zero(x) <= x,
        x - half_toward_zero(x) >= 0,
{
}

/// A newly created issue is open, well formed, runs one sprint from now,
/// and holds in escrow exactly the bounty that the sponsor pays in.
pub proof fn lemma_new_issue<A>(
    sponsor: A,
    token: A,
    bounty_amount: i128,
    stake_required: i128,
    duration: u64,
    now: u64,
    already_exists: bool,
)
    ensures
        WaveStakeContract::created(
            sponsor,
            token,
            bounty_amount,
            stake_required,
            duration,
            now,
            already_exists,
        ) matches Ok(step) ==> {
            &&& step.issue.well_formed()
            &&& step.issue.status == IssueStatus::Open
            &&& step.issue.deadline == later(now, duration)
            &&& step.issue.sprint_duration == duration
            &&& step.transfer == Transfer::Deposit(bounty_amount)
            &&& step.issue.escrow() == step.transfer.inflow()
        },
{
}

/// Every request turns a well-formed issue into a well-formed one.
pub proof fn lemma_requests_preserve_well_formedness<A>(issue: Issue<A>, request: Request<A>)
    requires
        issue.well_formed(),
    ensures
        WaveStakeContract::decided(issue, request) matches Ok(step) ==> step.issue.well_formed(),
{
    lemma_held_stake_bounds(issue);
    lemma_half_bounds(issue.locked_stake());
}

/// Two issues agree on sponsor, token, bounty, required stake and sprint length.
pub open spec fn same_terms<A>(a: Issue<A>, b: Issue<A>) -> bool {
    &&& a.sponsor == b.sponsor
    &&& a.token == b.token
    &&& a.bounty_amount == b.bounty_amount
    &&& a.stake_required == b.stake_required
    &&& a.sprint_duration == b.sprint_duration
}

/// No request changes who sponsors an issue, the token it is paid in, its
/// bounty, its required stake or its sprint length.
pub proof fn lemma_requests_keep_terms<A>(issue: Issue<A>, request: Request<A>)
    ensures
        WaveStakeContract::decided(issue, request) matches Ok(step) ==> same_terms(
            issue,
            step.issue,
        ),
{
}

/// Deadlines never move back. Claims, merges and forfeits keep the
/// deadline; an extension adds its duration to it; a slash starts a new
/// sprint from the ledger time, which is at or past the old deadline.
pub proof fn lemma_deadlines_never_move_back<A>(
    issue: Issue<A>,
    contributor: A,
    issue_id: u64,
    additional_duration: u64,
    now: u64,
)
    ensures
        WaveStakeContract::claimed(Some(issue), contributor, now) matches Ok(step)
            ==> step.issue.deadline == issue.deadline,
        WaveStakeContract::merged(Some(issue)) matches Ok(step) ==> step.issue.deadline
            == issue.deadline,
        WaveStakeContract::forfeited(Some(issue), issue_id, now) matches Ok((step, _))
            ==> step.issue.deadline == issue.deadline,
        WaveStakeContract::extended(Some(issue), additional_duration, now) matches Ok(step) ==> {
            &&& step.issue.deadline == later(issue.deadline, additional_duration)
            &&& step.issue.deadline >= issue.deadline
        },
        WaveStakeContract::slashed(Some(issue), now) matches Ok(step) ==> {
            &&& step.issue.deadline == later(now, issue.sprint_duration)
            &&& step.issue.deadline >= issue.deadline
        },
{
}

/// The escrow follows the token movements: after any accepted request that
/// saturates no amount, what the contract holds for the issue is what it
/// held before plus what the request moved in, minus what it paid out.
pub proof fn lemma_escrow_follows_request<A>(issue: Issue<A>, request: Request<A>)
    requires
        issue.well_formed(),
        WaveStakeContract::request_fits(issue, request),
    ensures
        WaveStakeContract::decided(issue, request) matches Ok(step) ==> {
            &&& step.issue.well_formed()
            &&& step.issue.escrow() == issue.escrow() + step.transfer.inflow()
        },
{
    lemma_requests_preserve_well_formedness(issue, request);
    lemma_held_stake_bounds(issue);
    lemma_half_bounds(issue.held_stake());
    if WaveStakeContract::decided(issue, request) is Ok {
        lemma_held_stake_bounds(WaveStakeContract::decided(issue, request)->Ok_0.issue);
    }
}

/// Over any run of accepted requests that saturate no amount, what the
/// contract holds for the issue is what it held before plus the tokens the
/// run moved in, minus those it paid out.
pub proof fn lemma_escrow_over_requests<A>(issue: Issue<A>, requests: Seq<Request<A>>)
    requires
        issue.well_formed(),
        WaveStakeContract::requests_fit(issue, requests),
    ensures
        WaveStakeContract::after_requests(issue, requests) matches Some((last, net)) ==> {
            &&& last.well_formed()
            &&& last.escrow() == issue.escrow() + net
        },
    decreases requests.len(),
{
    if requests.len() > 0 {
        lemma_escrow_follows_request(issue, requests[0]);
        if WaveStakeContract::decided(issue, requests[0]) is Ok {
            let step = WaveStakeContract::decided(issue, requests[0])->Ok_0;
            lemma_escrow_over_requests(step.issue, requests.drop_first());
        }
    }
}

/// From the creation of an issue, through any run of accepted requests
/// that saturate no amount, to a merge: the merge pays the contributor
/// exactly the tokens paid in for the issue minus those already paid out
/// (the bounty, the rolled-over pool and the held stake), and afterwards
/// the contract holds nothing for the issue.
pub proof fn lemma_merge_pays_everything_held<A>(
    sponsor: A,
    token: A,
    bounty_amount: i128,
    stake_required: i128,
    duration: u64,
    now: u64,
    requests: Seq<Request<A>>,
)
    requires
        WaveStakeContract::created(
            sponsor,
            token,
            bounty_amount,
            stake_required,
            duration,
            now,
            false,
        ) is Ok,
        ({
            let first = WaveStakeContract::created(
                sponsor,
                token,
                bounty_amount,
                stake_required,
                duration,
                now,
                false,
            )->Ok_0.issue;
            &&& WaveStakeContract::requests_fit(first, requests)
            &&& WaveStakeContract::after_requests(first, requests) is Some
            &&& WaveStakeContract::after_requests(first, requests)->Some_0.0.merge_fits()
        }),
    ensures
        ({
            let created = WaveStakeContract::created(
                sponsor,
                token,
                bounty_amount,
                stake_required,
                duration,
                now,
                false,
            )->Ok_0;
            let (last, net) = WaveStakeContract::after_requests(created.issue, requests)->Some_0;
            WaveStakeContract::merged(Some(last)) matches Ok(step) ==> {
                &&& step.transfer == Transfer::Payout((created.transfer.inflow() + net) as i128)
                &&& created.transfer.inflow() + net == last.bounty_amount + last.slashed_pool
                    + last.held_stake()
                &&& step.issue.escrow() == 0
            }
        }),
{
    let created = WaveStakeContract::created(
        sponsor,
        token,
        bounty_amount,
        stake_required,
        duration,
        now,
        false,
    )->Ok_0;
    lemma_escrow_over_requests(created.issue, requests);
    let last = WaveStakeContract::after_requests(created.issue, requests)->Some_0.0;
    lemma_held_stake_bounds(last);
}

/// Merging pays the contributor everything held in escrow for the issue:
/// the bounty, the rolled-over pool and the held stake.
pub proof fn lemma_merge_releases_escrow<A>(issue: Issue<A>)
    requires
        issue.well_formed(),
        issue.merge_fits(),
    ensures
        WaveStakeContract::merged(Some(issue)) matches Ok(step) ==> {
            &&& step.transfer == Transfer::Payout(issue.escrow() as i128)
            &&& issue.escrow() == issue.bounty_amount + issue.slashed_pool + issue.held_stake()
            &&& step.issue.escrow() == 0
        },
{
    lemma_held_stake_bounds(issue);
}

/// A forfeit splits the held stake: half (rounded down) goes back to the
/// contributor and the rest rolls into the pool.
pub proof fn lemma_forfeit_splits_stake<A>(issue: Issue<A>, issue_id: u64, now: u64)
    requires
        issue.well_formed(),
        issue.forfeit_fits(),
    ensures
        WaveStakeContract::forfeited(Some(issue), issue_id, now) matches Ok((step, event)) ==> {
            &&& event.returned_stake == issue.held_stake() / 2
            &&& event.returned_stake + (step.issue.slashed_pool - issue.slashed_pool)
                == issue.held_stake()
            &&& step.transfer == (if event.returned_stake > 0 {
                Transfer::Payout(event.returned_stake)
            } else {
                Transfer::Nothing
            })
        },
{
    lemma_held_stake_bounds(issue);
    lemma_half_bounds(issue.held_stake());
}

/// Slashing rolls the whole held stake into the pool.
pub proof fn lemma_slash_rolls_stake_into_pool<A>(issue: Issue<A>, now: u64)
    requires
        issue.well_formed(),
        issue.slash_fits(),
    ensures
        WaveStakeContract::slashed(Some(issue), now) matches Ok(step) ==> step.issue.slashed_pool
            == issue.slashed_pool + issue.held_stake(),
{
    lemma_held_stake_bounds(issue);
}

/// After a slash, the next contributor can claim the issue at once, and if
/// their work is merged they collect the bounty, the earlier pool, the
/// slashed stake and their own stake back.
pub proof fn lemma_next_contributor_collects_slashed_stake<A>(
    issue: Issue<A>,
    now: u64,
    next_contributor: A,
)
    requires
        issue.well_formed(),
        now < u64::MAX,
        issue.bounty_amount + issue.slashed_pool + issue.held_stake() + issue.stake_required
            <= i128::MAX,
        WaveStakeContract::slashed(Some(issue), now) is Ok,
    ensures
        ({
            let reopened = WaveStakeContract::slashed(Some(issue), now)->Ok_0.issue;
            let claimed = WaveStakeContract::claimed(Some(reopened), next_contributor, now);
            &&& claimed is Ok
            &&& WaveStakeContract::merged(Some(claimed->Ok_0.issue)) == Ok::<_, StakeError>(
                Step {
                    issue: Issue { status: IssueStatus::Resolved, ..claimed->Ok_0.issue },
                    transfer: Transfer::Payout(
                        (issue.bounty_amount + issue.slashed_pool + issue.held_stake()
                            + issue.stake_required) as i128,
                    ),
                },
            )
        }),
{
    lemma_held_stake_bounds(issue);
    let reopened = WaveStakeContract::slashed(Some(issue), now)->Ok_0.issue;
    let claimed = WaveStakeContract::claimed(Some(reopened), next_contributor, now)->Ok_0.issue;
    lemma_held_stake_bounds(claimed);
}

/// A claim can be extended only once: after an extension, every further
/// request for one is refused.
pub proof fn lemma_extension_only_once<A>(
    stored: Option<Issue<A>>,
    additional_duration: u64,
    now: u64,
    next_duration: u64,
    later_now: u64,
)
    requires
        WaveStakeContract::extended(stored, additional_duration, now) is Ok,
    ensures
        WaveStakeContract::extended(
            Some(WaveStakeContract::extended(stored, additional_duration, now)->Ok_0.issue),
            next_duration,
            later_now,
        ) == Err::<Step<A>, StakeError>(StakeError::NoFurtherExtensions),
{
}

/// A claim is exclusive: once an issue is claimed, every other claim is refused.
pub proof fn lemma_claim_is_exclusive<A>(
    stored: Option<Issue<A>>,
    contributor: A,
    now: u64,
    rival: A,
    rival_now: u64,
)
    requires
        WaveStakeContract::claimed(stored, contributor, now) is Ok,
    ensures
        WaveStakeContract::claimed(
            Some(WaveStakeContract::claimed(stored, contributor, now)->Ok_0.issue),
            rival,
            rival_now,
        ) == Err::<Step<A>, StakeError>(StakeError::IssueNotOpen),
{
}

/// A resolved issue can no longer be claimed, slashed, merged, forfeited or
/// extended: its reward is paid at most once and no stake is taken for it.
pub proof fn lemma_resolved_is_final<A>(issue: Issue<A>, request: Request<A>)
    requires
        issue.status == IssueStatus::Resolved,
    ensures
        WaveStakeContract::decided(issue, request) is Err,
{
}

/// After a slash or a forfeit the issue is open again, with no contributor
/// and no extension. After a slash a new sprint starts, so a claim at the
/// same ledger time succeeds; after a forfeit the sprint goes on, and a
/// claim at the same ledger time succeeds too.
pub proof fn lemma_reopened_after_slash_or_forfeit<A>(
    issue: Issue<A>,
    issue_id: u64,
    now: u64,
    next_contributor: A,
)
    ensures
        WaveStakeContract::slashed(Some(issue), now) matches Ok(step) ==> {
            &&& step.issue.status == IssueStatus::Open
            &&& step.issue.current_contributor is None
            &&& step.issue.extensions_used == 0
            &&& (issue.sprint_duration > 0 && now < u64::MAX) ==> WaveStakeContract::claimed(
                Some(step.issue),
                next_contributor,
                now,
            ) is Ok
        },
        WaveStakeContract::forfeited(Some(issue), issue_id, now) matches Ok((step, _)) ==> {
            &&& step.issue.status == IssueStatus::Open
            &&& step.issue.current_contributor is None
            &&& step.issue.extensions_used == 0
            &&& WaveStakeContract::claimed(Some(step.issue), next_contributor, now) is Ok
        },
{
}

} // verus!
