//! The stored state of one issue, and the token movements the contract asks for.
use vstd::prelude::*;

use crate::arith::half_toward_zero;
use crate::arith::saturate;
use crate::arith::saturating_mul;

verus! {

/// Where an issue stands in its life.
#[derive(Clone, Copy, Debug, PartialEq, Eq, Structural)]
pub enum IssueStatus {
    /// Waiting for a contributor to claim it.
    Open,
    /// Held exclusively by a contributor who has locked a stake.
    Claimed,
    /// Merged; the escrow has been paid out.
    Resolved,
}

/// One funded issue as the contract stores it.
///
/// `A` is the type of an account address: the contract never looks
/// into an address, it only keeps it and hands it back.
#[derive(Clone, Debug, PartialEq, Eq)]
pub struct Issue<A> {
    /// The account that funded the bounty and approves merges.
    pub sponsor: A,
    /// The token contract in which every amount of the issue is counted.
    pub token: A,
    /// The base bounty, paid in by the sponsor.
    pub bounty_amount: i128,
    /// The stake a contributor locks to claim the issue.
    pub stake_required: i128,
    /// The ledger time at which the current sprint ends.
    pub deadline: u64,
    /// The length of a sprint, set at creation; a slash starts a new sprint
    /// of this length for the next contributor.
    pub sprint_duration: u64,
    /// Where the issue stands.
    pub status: IssueStatus,
    /// The contributor holding (or, once resolved, having held) the claim.
    pub current_contributor: Option<A>,
    /// Stakes forfeited by earlier contributors, rolled into the reward.
    pub slashed_pool: i128,
    /// How many times the current claim has been extended (0 or 1).
    pub extensions_used: u32,
}

impl<A> Issue<A> {
    /// How many stakes the current claim has locked: two once extended, else one.
    pub open spec fn stake_multiplier(self) -> int {
        if self.extensions_used > 0 {
            2
        } else {
            1
        }
    }

    /// The stake locked by the current claim (saturating).
    pub open spec fn locked_stake(self) -> int {
        saturate(self.stake_required * self.stake_multiplier())
    }

    /// The stake held for the current claim, counted without saturation.
    pub open spec fn held_stake(self) -> int {
        self.stake_required * self.stake_multiplier()
    }

    /// The invariant that every issue the contract stores satisfies.
    pub open spec fn well_formed(self) -> bool {
        &&& self.bounty_amount > 0
        &&& self.stake_required >= 0
        &&& self.slashed_pool >= 0
        &&& self.sprint_duration > 0
        &&& self.extensions_used <= 1
        &&& self.status == IssueStatus::Open ==> {
            &&& self.current_contributor is None
            &&& self.extensions_used == 0
        }
        &&& self.status == IssueStatus::Claimed ==> self.current_contributor is Some
    }

    /// Slashing this issue saturates no amount: the held stake and the pool
    /// it rolls into fit in an `i128`.
    pub open spec fn slash_fits(self) -> bool {
        &&& self.held_stake() <= i128::MAX
        &&& self.slashed_pool + self.held_stake() <= i128::MAX
    }

    /// Merging this issue saturates no amount: the bounty, the pool and the
    /// held stake, and their sums, fit in an `i128`.
    pub open spec fn merge_fits(self) -> bool {
        &&& self.held_stake() <= i128::MAX
        &&& self.bounty_amount + self.slashed_pool <= i128::MAX
        &&& self.bounty_amount + self.slashed_pool + self.held_stake() <= i128::MAX
    }

    /// Forfeiting this issue saturates no amount: the held stake fits, and
    /// so does the pool with the forfeited half added.
    pub open spec fn forfeit_fits(self) -> bool {
        &&& self.held_stake() <= i128::MAX
        &&& self.slashed_pool + (self.held_stake() - half_toward_zero(self.held_stake()))
            <= i128::MAX
    }

    /// The tokens the contract holds in escrow for this issue: the bounty,
    /// the rolled-over pool and, while claimed, the held stake; nothing
    /// once resolved.
    pub open spec fn escrow(self) -> int {
        if self.status == IssueStatus::Resolved {
            0
        } else if self.status == IssueStatus::Claimed {
            self.bounty_amount + self.slashed_pool + self.held_stake()
        } else {
            self.bounty_amount + self.slashed_pool
        }
    }

    /// The stake locked by the current claim.
    pub fn locked_stake_amount(&self) -> (r: i128)
        ensures
            r == self.locked_stake(),
    {
        let multiplier: i128 = if self.extensions_used > 0 {
            2
        } else {
            1
        };
        saturating_mul(self.stake_required, multiplier)
    }
}

/// The one token movement that a successful request asks for.
#[derive(Clone, Copy, Debug, PartialEq, Eq, Structural)]
pub enum Transfer {
    /// No token moves.
    Nothing,
    /// The party making the request (the sponsor when creating an issue,
    /// the contributor when claiming or extending) pays this amount into
    /// the contract's escrow.
    Deposit(i128),
    /// The contract pays this amount out of escrow to the contributor.
    Payout(i128),
}

impl Transfer {
    /// What the transfer adds to the contract's balance.
    pub open spec fn inflow(self) -> int {
        match self {
            Transfer::Nothing => 0,
            Transfer::Deposit(amount) => amount as int,
            Transfer::Payout(amount) => -amount,
        }
    }
}

/// The outcome of a successful request: the issue to store and the token
/// movement to perform.
#[derive(Clone, Debug, PartialEq, Eq)]
pub struct Step<A> {
    /// The issue as it is stored after the request.
    pub issue: Issue<A>,
    /// The token movement the request asks for.
    pub transfer: Transfer,
}

/// Published when a contributor gives up a claim before its deadline.
#[derive(Clone, Debug, PartialEq, Eq)]
pub struct ForfeitEvent<A> {
    /// The contributor who gave the claim up.
    pub contributor: A,
    /// The issue that was forfeited.
    pub issue_id: u64,
    /// The part of the locked stake returned to the contributor.
    pub returned_stake: i128,
    /// The ledger time of the forfeit.
    pub timestamp: u64,
}

/// Published when a contributor extends a claim's deadline.
#[derive(Clone, Debug, PartialEq, Eq)]
pub struct ExtendedEvent<A> {
    /// The contributor holding the claim.
    pub contributor: A,
    /// The issue whose claim was extended.
    pub issue_id: u64,
    /// The deadline after the extension.
    pub new_deadline: u64,
    /// The stake paid in for the extension.
    pub additional_stake: i128,
    /// The ledger time of the extension.
    pub timestamp: u64,
}

} // verus!
