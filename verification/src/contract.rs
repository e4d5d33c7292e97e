//! The contract's six requests, each a decision from the stored issue and
//! the request's arguments to the issue to store and the token movement
//! to perform, or to the reason for refusing.
//!
//! The host around the contract loads the issue, has the named party
//! authorize the request, and then carries out what the decision says.
use vstd::prelude::*;

use crate::arith::half_toward_zero;
use crate::arith::halve;
use crate::arith::saturate;
use crate::arith::saturating_add;
use crate::arith::saturating_sub;
use crate::error::StakeError;
use crate::issue::ExtendedEvent;
use crate::issue::ForfeitEvent;
use crate::issue::Issue;
use crate::issue::IssueStatus;
use crate::issue::Step;
use crate::issue::Transfer;

verus! {

/// `a + b` for ledger times, saturating at `u64::MAX`.
pub open spec fn later(a: u64, b: u64) -> u64 {
    if a + b > u64::MAX {
        u64::MAX
    } else {
        (a + b) as u64
    }
}

/// The token movement for a stake paid in by a contributor: none for a zero stake.
pub open spec fn stake_deposit(stake: i128) -> Transfer {
    if stake > 0 {
        Transfer::Deposit(stake)
    } else {
        Transfer::Nothing
    }
}

/// The commit-to-work staking contract.
pub struct WaveStakeContract;

impl WaveStakeContract {
    /// What creating an issue decides.
    pub open spec fn created<A>(
        sponsor: A,
        token: A,
        bounty_amount: i128,
        stake_required: i128,
        duration: u64,
        now: u64,
        already_exists: bool,
    ) -> Result<Step<A>, StakeError> {
        if bounty_amount <= 0 {
            Err(StakeError::BountyNotPositive)
        } else if stake_required < 0 {
            Err(StakeError::NegativeStake)
        } else if duration == 0 {
            Err(StakeError::ZeroDuration)
        } else if already_exists {
            Err(StakeError::IssueAlreadyExists)
        } else {
            Ok(
                Step {
                    issue: Issue {
                        sponsor,
                        token,
                        bounty_amount,
                        stake_required,
                        deadline: later(now, duration),
                        sprint_duration: duration,
                        status: IssueStatus::Open,
                        current_contributor: None,
                        slashed_pool: 0,
                        extensions_used: 0,
                    },
                    transfer: Transfer::Deposit(bounty_amount),
                },
            )
        }
    }

    /// What claiming an issue decides.
    pub open spec fn claimed<A>(stored: Option<Issue<A>>, contributor: A, now: u64) -> Result<
        Step<A>,
        StakeError,
    > {
        match stored {
            None => Err(StakeError::IssueNotFound),
            Some(issue) => if issue.status != IssueStatus::Open {
                Err(StakeError::IssueNotOpen)
            } else if now >= issue.deadline {
                Err(StakeError::SprintDeadlinePassed)
            } else {
                Ok(
                    Step {
                        issue: Issue {
                            status: IssueStatus::Claimed,
                            current_contributor: Some(contributor),
                            extensions_used: 0,
                            ..issue
                        },
                        transfer: stake_deposit(issue.stake_required),
                    },
                )
            },
        }
    }

    /// What slashing a ghosted claim decides: the held stake rolls into the
    /// pool and a new sprint of the issue's sprint length starts now.
    pub open spec fn slashed<A>(stored: Option<Issue<A>>, now: u64) -> Result<Step<A>, StakeError> {
        match stored {
            None => Err(StakeError::IssueNotFound),
            Some(issue) => if issue.status != IssueStatus::Claimed {
                Err(StakeError::NotInClaimedState)
            } else if now < issue.deadline {
                Err(StakeError::SlashBeforeDeadline)
            } else {
                Ok(
                    Step {
                        issue: Issue {
                            slashed_pool: saturate(
                                issue.slashed_pool + issue.locked_stake(),
                            ) as i128,
                            deadline: later(now, issue.sprint_duration),
                            status: IssueStatus::Open,
                            current_contributor: None,
                            extensions_used: 0,
                            ..issue
                        },
                        transfer: Transfer::Nothing,
                    },
                )
            },
        }
    }

    /// The reward for merged work: the bounty, the rolled-over pool and the
    /// locked stake, summed left to right with saturation.
    pub open spec fn reward<A>(issue: Issue<A>) -> int {
        saturate(saturate(issue.bounty_amount + issue.slashed_pool) + issue.locked_stake())
    }

    /// What merging and rewarding decides.
    pub open spec fn merged<A>(stored: Option<Issue<A>>) -> Result<Step<A>, StakeError> {
        match stored {
            None => Err(StakeError::IssueNotFound),
            Some(issue) => if issue.status != IssueStatus::Claimed {
                Err(StakeError::MergeUnclaimed)
            } else if issue.current_contributor is None {
                Err(StakeError::MissingContributor)
            } else {
                Ok(
                    Step {
                        issue: Issue { status: IssueStatus::Resolved, ..issue },
                        transfer: Transfer::Payout(Self::reward(issue) as i128),
                    },
                )
            },
        }
    }

    /// The part of the locked stake that a forfeit returns: half, rounded toward zero.
    pub open spec fn returned_share<A>(issue: Issue<A>) -> int {
        half_toward_zero(issue.locked_stake())
    }

    /// What forfeiting a claim decides.
    pub open spec fn forfeited<A>(stored: Option<Issue<A>>, issue_id: u64, now: u64) -> Result<
        (Step<A>, ForfeitEvent<A>),
        StakeError,
    > {
        match stored {
            None => Err(StakeError::IssueNotFound),
            Some(issue) => if issue.current_contributor is None {
                Err(StakeError::MissingContributor)
            } else if issue.status != IssueStatus::Claimed {
                Err(StakeError::IssueNotClaimed)
            } else if now >= issue.deadline {
                Err(StakeError::DeadlinePassed)
            } else {
                let total = issue.locked_stake();
                let returned = Self::returned_share(issue);
                let slashed = saturate(total - returned);
                Ok(
                    (
                        Step {
                            issue: Issue {
                                slashed_pool: saturate(issue.slashed_pool + slashed) as i128,
                                status: IssueStatus::Open,
                                current_contributor: None,
                                extensions_used: 0,
                                ..issue
                            },
                            transfer: if returned > 0 {
                                Transfer::Payout(returned as i128)
                            } else {
                                Transfer::Nothing
                            },
                        },
                        ForfeitEvent {
                            contributor: issue.current_contributor.unwrap(),
                            issue_id,
                            returned_stake: returned as i128,
                            timestamp: now,
                        },
                    ),
                )
            },
        }
    }

    /// What extending a claim decides.
    pub open spec fn extended<A>(
        stored: Option<Issue<A>>,
        additional_duration: u64,
        now: u64,
    ) -> Result<Step<A>, StakeError> {
        match stored {
            None => Err(StakeError::IssueNotFound),
            Some(issue) => if issue.current_contributor is None {
                Err(StakeError::MissingContributor)
            } else if issue.extensions_used != 0 {
                Err(StakeError::NoFurtherExtensions)
            } else if now >= issue.deadline {
                Err(StakeError::DeadlinePassed)
            } else if issue.status != IssueStatus::Claimed {
                Err(StakeError::IssueNotClaimed)
            } else {
                Ok(
                    Step {
                        issue: Issue {
                            deadline: later(issue.deadline, additional_duration),
                            extensions_used: 1,
                            ..issue
                        },
                        transfer: stake_deposit(issue.stake_required),
                    },
                )
            },
        }
    }

    /// Creates a funded issue with a required anti-ghosting stake.
    ///
    /// `now` is the ledger time and `already_exists` tells whether an issue
    /// is stored under the requested id. On success the sponsor pays the
    /// bounty into escrow and the issue is open until `now + duration`.
    pub fn create_issue<A>(
        sponsor: A,
        token: A,
        bounty_amount: i128,
        stake_required: i128,
        duration: u64,
        now: u64,
        already_exists: bool,
    ) -> (r: Result<Step<A>, StakeError>)
        ensures
            r == Self::created(
                sponsor,
                token,
                bounty_amount,
                stake_required,
                duration,
                now,
                already_exists,
            ),
    {
        if bounty_amount <= 0 {
            return Err(StakeError::BountyNotPositive);
        }
        if stake_required < 0 {
            return Err(StakeError::NegativeStake);
        }
        if duration == 0 {
            return Err(StakeError::ZeroDuration);
        }
        if already_exists {
            return Err(StakeError::IssueAlreadyExists);
        }
        let deadline = now.saturating_add(duration);
        let issue = Issue {
            sponsor,
            token,
            bounty_amount,
            stake_required,
            deadline,
            sprint_duration: duration,
            status: IssueStatus::Open,
            current_contributor: None,
            slashed_pool: 0,
            extensions_used: 0,
        };
        Ok(Step { issue, transfer: Transfer::Deposit(bounty_amount) })
    }

    /// Claims an open issue exclusively for `contributor`, who locks the
    /// required stake (no transfer when the stake is zero). The claim must
    /// come before the sprint deadline; `now` is the ledger time.
    pub fn claim_issue<A>(stored: Option<Issue<A>>, contributor: A, now: u64) -> (r: Result<
        Step<A>,
        StakeError,
    >)
        ensures
            r == Self::claimed(stored, contributor, now),
    {
        let mut issue = match stored {
            None => return Err(StakeError::IssueNotFound),
            Some(issue) => issue,
        };
        if issue.status != IssueStatus::Open {
            return Err(StakeError::IssueNotOpen);
        }
        if now >= issue.deadline {
            return Err(StakeError::SprintDeadlinePassed);
        }
        let transfer = if issue.stake_required > 0 {
            Transfer::Deposit(issue.stake_required)
        } else {
            Transfer::Nothing
        };
        issue.status = IssueStatus::Claimed;
        issue.current_contributor = Some(contributor);
        issue.extensions_used = 0;
        Ok(Step { issue, transfer })
    }

    /// Slashes a claim whose deadline has passed: the locked stake rolls
    /// into the issue's pool and the issue opens for the next contributor,
    /// with a new sprint of the issue's sprint length starting now.
    pub fn slash_ghost<A>(stored: Option<Issue<A>>, now: u64) -> (r: Result<Step<A>, StakeError>)
        ensures
            r == Self::slashed(stored, now),
    {
        let mut issue = match stored {
            None => return Err(StakeError::IssueNotFound),
            Some(issue) => issue,
        };
        if issue.status != IssueStatus::Claimed {
            return Err(StakeError::NotInClaimedState);
        }
        if now < issue.deadline {
            return Err(StakeError::SlashBeforeDeadline);
        }
        let locked = issue.locked_stake_amount();
        issue.slashed_pool = saturating_add(issue.slashed_pool, locked);
        issue.deadline = now.saturating_add(issue.sprint_duration);
        issue.status = IssueStatus::Open;
        issue.current_contributor = None;
        issue.extensions_used = 0;
        Ok(Step { issue, transfer: Transfer::Nothing })
    }

    /// Merges the claimed work: the contributor receives the bounty, the
    /// rolled-over pool and the locked stake, and the issue is resolved.
    pub fn merge_and_reward<A>(stored: Option<Issue<A>>) -> (r: Result<Step<A>, StakeError>)
        ensures
            r == Self::merged(stored),
    {
        let mut issue = match stored {
            None => return Err(StakeError::IssueNotFound),
            Some(issue) => issue,
        };
        if issue.status != IssueStatus::Claimed {
            return Err(StakeError::MergeUnclaimed);
        }
        if issue.current_contributor.is_none() {
            return Err(StakeError::MissingContributor);
        }
        let locked = issue.locked_stake_amount();
        let total_payout = saturating_add(
            saturating_add(issue.bounty_amount, issue.slashed_pool),
            locked,
        );
        issue.status = IssueStatus::Resolved;
        Ok(Step { issue, transfer: Transfer::Payout(total_payout) })
    }

    /// Gives a claim up before its deadline: half the locked stake (rounded
    /// toward zero) goes back to the contributor, the rest rolls into the
    /// pool, and the issue opens again.
    pub fn graceful_forfeit<A>(stored: Option<Issue<A>>, issue_id: u64, now: u64) -> (r: Result<
        (Step<A>, ForfeitEvent<A>),
        StakeError,
    >)
        ensures
            r == Self::forfeited(stored, issue_id, now),
    {
        let mut issue = match stored {
            None => return Err(StakeError::IssueNotFound),
            Some(issue) => issue,
        };
        let contributor = match issue.current_contributor.take() {
            None => return Err(StakeError::MissingContributor),
            Some(c) => c,
        };
        if issue.status != IssueStatus::Claimed {
            return Err(StakeError::IssueNotClaimed);
        }
        if now >= issue.deadline {
            return Err(StakeError::DeadlinePassed);
        }
        let total_stake = issue.locked_stake_amount();
        let returned_stake = halve(total_stake);
        let slashed_stake = saturating_sub(total_stake, returned_stake);
        let transfer = if returned_stake > 0 {
            Transfer::Payout(returned_stake)
        } else {
            Transfer::Nothing
        };
        issue.slashed_pool = saturating_add(issue.slashed_pool, slashed_stake);
        issue.status = IssueStatus::Open;
        issue.current_contributor = None;
        issue.extensions_used = 0;
        let event = ForfeitEvent { contributor, issue_id, returned_stake, timestamp: now };
        Ok((Step { issue, transfer }, event))
    }

    /// Extends a live claim's deadline once by `additional_duration`, for a
    /// further stake equal to the required stake.
    ///
    /// The checks come in the order: issue stored, contributor named,
    /// extension still unused, deadline not reached, issue claimed. The
    /// event names a clone of the stored contributor: for an address type
    /// whose clone Verus knows (a plain integer, say) that is the stored
    /// contributor itself; for any other address type nothing more is known
    /// of a clone.
    pub fn request_extension<A: Clone>(
        stored: Option<Issue<A>>,
        issue_id: u64,
        additional_duration: u64,
        now: u64,
    ) -> (r: Result<(Step<A>, ExtendedEvent<A>), StakeError>)
        ensures
            match r {
                Ok((step, event)) => {
                    &&& Self::extended(stored, additional_duration, now) == Ok::<
                        Step<A>,
                        StakeError,
                    >(step)
                    &&& cloned::<A>(stored.unwrap().current_contributor.unwrap(), event.contributor)
                    &&& event.issue_id == issue_id
                    &&& event.new_deadline == step.issue.deadline
                    &&& event.additional_stake == stored.unwrap().stake_required
                    &&& event.timestamp == now
                },
                Err(e) => Self::extended(stored, additional_duration, now) == Err::<
                    Step<A>,
                    StakeError,
                >(e),
            },
    {
        let mut issue = match stored {
            None => return Err(StakeError::IssueNotFound),
            Some(issue) => issue,
        };
        let contributor = match &issue.current_contributor {
            None => return Err(StakeError::MissingContributor),
            Some(c) => c.clone(),
        };
        if issue.extensions_used != 0 {
            return Err(StakeError::NoFurtherExtensions);
        }
        if now >= issue.deadline {
            return Err(StakeError::DeadlinePassed);
        }
        if issue.status != IssueStatus::Claimed {
            return Err(StakeError::IssueNotClaimed);
        }
        let transfer = if issue.stake_required > 0 {
            Transfer::Deposit(issue.stake_required)
        } else {
            Transfer::Nothing
        };
        issue.deadline = issue.deadline.saturating_add(additional_duration);
        issue.extensions_used = 1;
        let event = ExtendedEvent {
            contributor,
            issue_id,
            new_deadline: issue.deadline,
            additional_stake: issue.stake_required,
            timestamp: now,
        };
        Ok((Step { issue, transfer }, event))
    }
}

/// A request on a stored issue, with the arguments its decision takes.
pub enum Request<A> {
    /// A claim by this contributor at this ledger time.
    Claim(A, u64),
    /// A slash at this ledger time.
    Slash(u64),
    /// A merge and reward.
    Merge,
    /// A forfeit of the issue with this id at this ledger time.
    Forfeit(u64, u64),
    /// An extension by this many seconds at this ledger time.
    Extend(u64, u64),
}

impl WaveStakeContract {
    /// The decision on a request about a stored issue.
    pub open spec fn decided<A>(issue: Issue<A>, request: Request<A>) -> Result<Step<A>, StakeError> {
        match request {
            Request::Claim(contributor, now) => Self::claimed(Some(issue), contributor, now),
            Request::Slash(now) => Self::slashed(Some(issue), now),
            Request::Merge => Self::merged(Some(issue)),
            Request::Forfeit(issue_id, now) => match Self::forfeited(Some(issue), issue_id, now) {
                Ok((step, _)) => Ok(step),
                Err(e) => Err(e),
            },
            Request::Extend(additional_duration, now) => Self::extended(
                Some(issue),
                additional_duration,
                now,
            ),
        }
    }

    /// The request saturates no amount when decided on this issue.
    pub open spec fn request_fits<A>(issue: Issue<A>, request: Request<A>) -> bool {
        match request {
            Request::Slash(_) => issue.slash_fits(),
            Request::Merge => issue.merge_fits(),
            Request::Forfeit(_, _) => issue.forfeit_fits(),
            _ => true,
        }
    }

    /// The issue after a run of requests, one after the other, and the net
    /// amount they moved into escrow; `None` if one of them is refused.
    pub open spec fn after_requests<A>(issue: Issue<A>, requests: Seq<Request<A>>) -> Option<
        (Issue<A>, int),
    >
        decreases requests.len(),
    {
        if requests.len() == 0 {
            Some((issue, 0))
        } else {
            match Self::decided(issue, requests[0]) {
                Err(_) => None,
                Ok(step) => match Self::after_requests(step.issue, requests.drop_first()) {
                    None => None,
                    Some((last, net)) => Some((last, step.transfer.inflow() + net)),
                },
            }
        }
    }

    /// No request of the run saturates an amount.
    pub open spec fn requests_fit<A>(issue: Issue<A>, requests: Seq<Request<A>>) -> bool
        decreases requests.len(),
    {
        requests.len() == 0 || {
            &&& Self::request_fits(issue, requests[0])
            &&& match Self::decided(issue, requests[0]) {
                Err(_) => true,
                Ok(step) => Self::requests_fit(step.issue, requests.drop_first()),
            }
        }
    }

    /// The account that must authorize a request: the claimant for a claim,
    /// the stored issue's sponsor for a slash or a merge, and the stored
    /// issue's contributor for a forfeit or an extension. `None` when the
    /// issue or its contributor is missing, and the request is refused.
    pub open spec fn signer<A>(stored: Option<Issue<A>>, request: Request<A>) -> Option<A> {
        match request {
            Request::Claim(contributor, _) => Some(contributor),
            Request::Slash(_) | Request::Merge => match stored {
                Some(issue) => Some(issue.sponsor),
                None => None,
            },
            Request::Forfeit(_, _) | Request::Extend(_, _) => match stored {
                Some(issue) => issue.current_contributor,
                None => None,
            },
        }
    }

    /// The account that must authorize `request` on the stored issue.
    /// (Creating an issue is authorized by the sponsor that it names.)
    pub fn required_signer<'a, A>(stored: &'a Option<Issue<A>>, request: &'a Request<A>) -> (r:
        Option<&'a A>)
        ensures
            match r {
                Some(account) => Self::signer(*stored, *request) == Some(*account),
                None => Self::signer(*stored, *request) is None,
            },
    {
        match request {
            Request::Claim(contributor, _) => Some(contributor),
            Request::Slash(_) | Request::Merge => match stored {
                Some(issue) => Some(&issue.sponsor),
                None => None,
            },
            Request::Forfeit(_, _) | Request::Extend(_, _) => match stored {
                Some(issue) => match &issue.current_contributor {
                    Some(contributor) => Some(contributor),
                    None => None,
                },
                None => None,
            },
        }
    }
}

} // verus!
