// The decisions one by one: each refusal, the edge cases, the saturating
// arithmetic, and the laws on concrete issues.

use soroban_wave_stake::arith::{halve, saturating_add, saturating_mul, saturating_sub};
use soroban_wave_stake::contract::{Request, WaveStakeContract};
use soroban_wave_stake::error::StakeError;
use soroban_wave_stake::issue::{Issue, IssueStatus, Step, Transfer};

fn open_issue(bounty: i128, stake: i128, deadline: u64) -> Issue<&'static str> {
    Issue {
        sponsor: "sponsor",
        token: "token",
        bounty_amount: bounty,
        stake_required: stake,
        deadline,
        sprint_duration: 1000,
        status: IssueStatus::Open,
        current_contributor: None,
        slashed_pool: 0,
        extensions_used: 0,
    }
}

fn claimed_issue(bounty: i128, stake: i128, deadline: u64) -> Issue<&'static str> {
    Issue {
        status: IssueStatus::Claimed,
        current_contributor: Some("dev"),
        ..open_issue(bounty, stake, deadline)
    }
}

fn resolved_issue() -> Issue<&'static str> {
    Issue { status: IssueStatus::Resolved, ..claimed_issue(500, 30, 2000) }
}

fn locked(issue: &Issue<&'static str>) -> i128 {
    if issue.extensions_used > 0 {
        issue.stake_required * 2
    } else {
        issue.stake_required
    }
}

fn escrow(issue: &Issue<&'static str>) -> i128 {
    match issue.status {
        IssueStatus::Resolved => 0,
        IssueStatus::Claimed => issue.bounty_amount + issue.slashed_pool + locked(issue),
        IssueStatus::Open => issue.bounty_amount + issue.slashed_pool,
    }
}

fn inflow(t: Transfer) -> i128 {
    match t {
        Transfer::Nothing => 0,
        Transfer::Deposit(a) => a,
        Transfer::Payout(a) => -a,
    }
}

fn well_formed(issue: &Issue<&'static str>) -> bool {
    issue.bounty_amount > 0
        && issue.stake_required >= 0
        && issue.slashed_pool >= 0
        && issue.extensions_used <= 1
        && (issue.status != IssueStatus::Open
            || (issue.current_contributor.is_none() && issue.extensions_used == 0))
        && (issue.status != IssueStatus::Claimed || issue.current_contributor.is_some())
}

// ---- refusals ----

#[test]
fn create_refuses_non_positive_bounty() {
    let r = WaveStakeContract::create_issue("s", "t", 0, 10, 100, 0, false);
    assert_eq!(r.unwrap_err(), StakeError::BountyNotPositive);
    let r = WaveStakeContract::create_issue("s", "t", -5, 10, 100, 0, false);
    assert_eq!(r.unwrap_err(), StakeError::BountyNotPositive);
}

#[test]
fn create_refuses_negative_stake() {
    let r = WaveStakeContract::create_issue("s", "t", 10, -1, 100, 0, false);
    assert_eq!(r.unwrap_err(), StakeError::NegativeStake);
}

#[test]
fn create_refuses_zero_duration() {
    let r = WaveStakeContract::create_issue("s", "t", 10, 1, 0, 0, false);
    assert_eq!(r.unwrap_err(), StakeError::ZeroDuration);
}

#[test]
fn create_refuses_existing_id() {
    let r = WaveStakeContract::create_issue("s", "t", 10, 1, 5, 0, true);
    assert_eq!(r.unwrap_err(), StakeError::IssueAlreadyExists);
}

#[test]
fn create_checks_in_order() {
    // every argument is wrong: the bounty is reported first
    let r = WaveStakeContract::create_issue("s", "t", 0, -1, 0, 0, true);
    assert_eq!(r.unwrap_err(), StakeError::BountyNotPositive);
    let r = WaveStakeContract::create_issue("s", "t", 1, 0, 0, 0, true);
    assert_eq!(r.unwrap_err(), StakeError::ZeroDuration);
}

#[test]
fn missing_issue_is_refused_by_every_request() {
    assert_eq!(
        WaveStakeContract::claim_issue(None, "dev", 100).unwrap_err(),
        StakeError::IssueNotFound
    );
    assert_eq!(WaveStakeContract::slash_ghost::<&str>(None, 0).unwrap_err(), StakeError::IssueNotFound);
    assert_eq!(
        WaveStakeContract::merge_and_reward::<&str>(None).unwrap_err(),
        StakeError::IssueNotFound
    );
    assert_eq!(
        WaveStakeContract::graceful_forfeit::<&str>(None, 1, 0).unwrap_err(),
        StakeError::IssueNotFound
    );
    assert_eq!(
        WaveStakeContract::request_extension::<&str>(None, 1, 5, 0).unwrap_err(),
        StakeError::IssueNotFound
    );
}

#[test]
fn claim_refuses_claimed_issue() {
    let r = WaveStakeContract::claim_issue(Some(claimed_issue(500, 30, 2000)), "rival", 100);
    assert_eq!(r.unwrap_err(), StakeError::IssueNotOpen);
}

#[test]
fn claim_refuses_at_or_after_sprint_deadline() {
    let r = WaveStakeContract::claim_issue(Some(open_issue(500, 30, 2000)), "dev", 2000);
    assert_eq!(r.unwrap_err(), StakeError::SprintDeadlinePassed);
    let r = WaveStakeContract::claim_issue(Some(open_issue(500, 30, 2000)), "dev", 5000);
    assert_eq!(r.unwrap_err(), StakeError::SprintDeadlinePassed);
    assert!(WaveStakeContract::claim_issue(Some(open_issue(500, 30, 2000)), "dev", 1999).is_ok());
}

#[test]
fn claim_after_forfeit_past_deadline_is_refused() {
    let (step, _) =
        WaveStakeContract::graceful_forfeit(Some(claimed_issue(500, 30, 2000)), 1, 1500).unwrap();
    let r = WaveStakeContract::claim_issue(Some(step.issue), "next", 2000);
    assert_eq!(r.unwrap_err(), StakeError::SprintDeadlinePassed);
}

#[test]
fn slash_restarts_the_sprint() {
    let step = WaveStakeContract::slash_ghost(Some(claimed_issue(500, 30, 2000)), 2050).unwrap();
    assert_eq!(step.issue.deadline, 2050 + 1000);
    assert_eq!(step.issue.sprint_duration, 1000);
    // the sprint length saturates at the end of time
    let late = Issue { deadline: u64::MAX - 10, ..claimed_issue(500, 30, 0) };
    let step = WaveStakeContract::slash_ghost(Some(late), u64::MAX - 5).unwrap();
    assert_eq!(step.issue.deadline, u64::MAX);
}

#[test]
fn slash_refuses_open_issue() {
    let r = WaveStakeContract::slash_ghost(Some(open_issue(500, 30, 2000)), 3000);
    assert_eq!(r.unwrap_err(), StakeError::NotInClaimedState);
}

#[test]
fn slash_refuses_before_deadline() {
    let r = WaveStakeContract::slash_ghost(Some(claimed_issue(500, 30, 2000)), 1999);
    assert_eq!(r.unwrap_err(), StakeError::SlashBeforeDeadline);
    // at the deadline itself the slash goes through
    assert!(WaveStakeContract::slash_ghost(Some(claimed_issue(500, 30, 2000)), 2000).is_ok());
}

#[test]
fn merge_refuses_open_issue() {
    let r = WaveStakeContract::merge_and_reward(Some(open_issue(500, 30, 2000)));
    assert_eq!(r.unwrap_err(), StakeError::MergeUnclaimed);
}

#[test]
fn merge_refuses_claim_without_contributor() {
    let malformed = Issue { current_contributor: None, ..claimed_issue(500, 30, 2000) };
    let r = WaveStakeContract::merge_and_reward(Some(malformed));
    assert_eq!(r.unwrap_err(), StakeError::MissingContributor);
}

#[test]
fn forfeit_refuses_missing_contributor() {
    let r = WaveStakeContract::graceful_forfeit(Some(open_issue(500, 30, 2000)), 1, 100);
    assert_eq!(r.unwrap_err(), StakeError::MissingContributor);
}

#[test]
fn forfeit_refuses_unclaimed_issue() {
    let r = WaveStakeContract::graceful_forfeit(Some(resolved_issue()), 1, 100);
    assert_eq!(r.unwrap_err(), StakeError::IssueNotClaimed);
}

#[test]
fn forfeit_refuses_at_deadline() {
    let r = WaveStakeContract::graceful_forfeit(Some(claimed_issue(500, 30, 2000)), 1, 2000);
    assert_eq!(r.unwrap_err(), StakeError::DeadlinePassed);
}

#[test]
fn extension_refuses_missing_contributor() {
    let r = WaveStakeContract::request_extension(Some(open_issue(500, 30, 2000)), 1, 10, 100);
    assert_eq!(r.unwrap_err(), StakeError::MissingContributor);
}

#[test]
fn extension_refuses_resolved_issue() {
    let r = WaveStakeContract::request_extension(Some(resolved_issue()), 1, 50, 100);
    assert_eq!(r.unwrap_err(), StakeError::IssueNotClaimed);
}

#[test]
fn extension_after_extended_merge_reports_used_extension() {
    let (step, _) =
        WaveStakeContract::request_extension(Some(claimed_issue(500, 30, 2000)), 1, 500, 100).unwrap();
    let merged = WaveStakeContract::merge_and_reward(Some(step.issue)).unwrap();
    let r = WaveStakeContract::request_extension(Some(merged.issue), 1, 500, 200);
    assert_eq!(r.unwrap_err(), StakeError::NoFurtherExtensions);
}

#[test]
fn extension_of_resolved_issue_past_deadline_reports_deadline() {
    let r = WaveStakeContract::request_extension(Some(resolved_issue()), 1, 50, 2000);
    assert_eq!(r.unwrap_err(), StakeError::DeadlinePassed);
}

#[test]
fn extension_refuses_second_extension() {
    let once = Issue { extensions_used: 1, ..claimed_issue(500, 30, 2000) };
    let r = WaveStakeContract::request_extension(Some(once), 1, 10, 100);
    assert_eq!(r.unwrap_err(), StakeError::NoFurtherExtensions);
}

#[test]
fn extension_refuses_after_deadline() {
    let r = WaveStakeContract::request_extension(Some(claimed_issue(500, 30, 2000)), 1, 10, 2000);
    assert_eq!(r.unwrap_err(), StakeError::DeadlinePassed);
}

#[test]
fn error_messages() {
    assert_eq!(StakeError::BountyNotPositive.message(), "Bounty must be positive");
    assert_eq!(StakeError::NegativeStake.message(), "Stake cannot be negative");
    assert_eq!(StakeError::ZeroDuration.message(), "Duration must be greater than zero");
    assert_eq!(StakeError::IssueAlreadyExists.message(), "Issue already exists");
    assert_eq!(StakeError::IssueNotFound.message(), "Issue not found");
    assert_eq!(StakeError::IssueNotOpen.message(), "Issue is not open for claims");
    assert_eq!(StakeError::NotInClaimedState.message(), "Issue is not in a claimed state");
    assert_eq!(
        StakeError::SlashBeforeDeadline.message(),
        "Cannot slash before deadline expiration"
    );
    assert_eq!(StakeError::MergeUnclaimed.message(), "Issue cannot be merged unless claimed");
    assert_eq!(StakeError::MissingContributor.message(), "Malformed state: Missing contributor");
    assert_eq!(StakeError::IssueNotClaimed.message(), "Issue is not claimed");
    assert_eq!(StakeError::DeadlinePassed.message(), "Deadline has already passed");
    assert_eq!(StakeError::NoFurtherExtensions.message(), "No further extensions allowed");
}

// ---- exact results and edge cases ----

#[test]
fn create_sets_deadline_and_deposits_bounty() {
    let step = WaveStakeContract::create_issue("s", "t", 500, 20, 3600, 1000, false).unwrap();
    assert_eq!(step.transfer, Transfer::Deposit(500));
    assert_eq!(
        step.issue,
        Issue {
            sponsor: "s",
            token: "t",
            bounty_amount: 500,
            stake_required: 20,
            deadline: 4600,
            sprint_duration: 3600,
            status: IssueStatus::Open,
            current_contributor: None,
            slashed_pool: 0,
            extensions_used: 0,
        }
    );
}

#[test]
fn create_deadline_saturates() {
    let step = WaveStakeContract::create_issue("s", "t", 1, 0, 10, u64::MAX - 5, false).unwrap();
    assert_eq!(step.issue.deadline, u64::MAX);
}

#[test]
fn claim_with_zero_stake_moves_nothing() {
    let step = WaveStakeContract::claim_issue(Some(open_issue(500, 0, 2000)), "dev", 100).unwrap();
    assert_eq!(step.transfer, Transfer::Nothing);
    assert_eq!(step.issue.current_contributor, Some("dev"));
}

#[test]
fn merge_pays_bounty_pool_and_doubled_stake() {
    let issue = Issue {
        slashed_pool: 45,
        extensions_used: 1,
        ..claimed_issue(500, 30, 2000)
    };
    let step = WaveStakeContract::merge_and_reward(Some(issue)).unwrap();
    assert_eq!(step.transfer, Transfer::Payout(500 + 45 + 60));
    assert_eq!(step.issue.status, IssueStatus::Resolved);
    assert_eq!(step.issue.current_contributor, Some("dev"));
    assert_eq!(step.issue.slashed_pool, 45);
}

#[test]
fn merge_payout_saturates() {
    let issue = Issue { slashed_pool: i128::MAX, ..claimed_issue(500, 30, 2000) };
    let step = WaveStakeContract::merge_and_reward(Some(issue)).unwrap();
    assert_eq!(step.transfer, Transfer::Payout(i128::MAX));
}

#[test]
fn slash_saturates_pool() {
    let issue = Issue { slashed_pool: i128::MAX - 10, ..claimed_issue(500, 30, 2000) };
    let step = WaveStakeContract::slash_ghost(Some(issue), 2000).unwrap();
    assert_eq!(step.issue.slashed_pool, i128::MAX);
}

#[test]
fn forfeit_of_odd_stake_rounds_returned_share_down() {
    let (step, event) =
        WaveStakeContract::graceful_forfeit(Some(claimed_issue(500, 31, 2000)), 77, 1500).unwrap();
    assert_eq!(event.returned_stake, 15);
    assert_eq!(event.contributor, "dev");
    assert_eq!(event.issue_id, 77);
    assert_eq!(event.timestamp, 1500);
    assert_eq!(step.transfer, Transfer::Payout(15));
    assert_eq!(step.issue.slashed_pool, 16);
}

#[test]
fn forfeit_of_tiny_stake_returns_nothing() {
    let (step, event) =
        WaveStakeContract::graceful_forfeit(Some(claimed_issue(500, 1, 2000)), 1, 1500).unwrap();
    assert_eq!(event.returned_stake, 0);
    assert_eq!(step.transfer, Transfer::Nothing);
    assert_eq!(step.issue.slashed_pool, 1);
}

#[test]
fn extension_event_and_deadline() {
    let (step, event) =
        WaveStakeContract::request_extension(Some(claimed_issue(500, 30, 2000)), 401, 500, 1200)
            .unwrap();
    assert_eq!(step.transfer, Transfer::Deposit(30));
    assert_eq!(step.issue.deadline, 2500);
    assert_eq!(step.issue.extensions_used, 1);
    assert_eq!(event.contributor, "dev");
    assert_eq!(event.issue_id, 401);
    assert_eq!(event.new_deadline, 2500);
    assert_eq!(event.additional_stake, 30);
    assert_eq!(event.timestamp, 1200);
}

#[test]
fn extension_deadline_saturates() {
    let (step, _) =
        WaveStakeContract::request_extension(Some(claimed_issue(500, 30, u64::MAX - 1)), 1, 50, 0)
            .unwrap();
    assert_eq!(step.issue.deadline, u64::MAX);
}

#[test]
fn signer_of_each_request() {
    let stored = Some(claimed_issue(500, 30, 2000));
    assert_eq!(
        WaveStakeContract::required_signer(&stored, &Request::Claim("claimant", 5)),
        Some(&"claimant")
    );
    assert_eq!(WaveStakeContract::required_signer(&stored, &Request::Slash(5)), Some(&"sponsor"));
    assert_eq!(WaveStakeContract::required_signer(&stored, &Request::Merge), Some(&"sponsor"));
    assert_eq!(
        WaveStakeContract::required_signer(&stored, &Request::Forfeit(1, 5)),
        Some(&"dev")
    );
    assert_eq!(
        WaveStakeContract::required_signer(&stored, &Request::Extend(10, 5)),
        Some(&"dev")
    );
    let open = Some(open_issue(500, 30, 2000));
    assert_eq!(WaveStakeContract::required_signer(&open, &Request::Forfeit(1, 5)), None);
    let missing: Option<Issue<&'static str>> = None;
    assert_eq!(WaveStakeContract::required_signer(&missing, &Request::Merge), None);
}

#[test]
fn saturating_arithmetic() {
    assert_eq!(saturating_add(i128::MAX, 1), i128::MAX);
    assert_eq!(saturating_add(i128::MIN, -1), i128::MIN);
    assert_eq!(saturating_add(2, 3), 5);
    assert_eq!(saturating_sub(i128::MIN, 1), i128::MIN);
    assert_eq!(saturating_sub(i128::MAX, -1), i128::MAX);
    assert_eq!(saturating_sub(7, 3), 4);
    assert_eq!(saturating_mul(i128::MAX, 2), i128::MAX);
    assert_eq!(saturating_mul(i128::MIN, 2), i128::MIN);
    assert_eq!(saturating_mul(-3, 4), -12);
    assert_eq!(halve(61), 30);
    assert_eq!(halve(-3), -1);
    assert_eq!(halve(i128::MIN), i128::MIN / 2);
}

#[test]
fn locked_stake_amount_doubles_after_extension() {
    assert_eq!(claimed_issue(500, 30, 2000).locked_stake_amount(), 30);
    let extended = Issue { extensions_used: 1, ..claimed_issue(500, 30, 2000) };
    assert_eq!(extended.locked_stake_amount(), 60);
}

// ---- the laws on concrete issues ----

#[test]
fn law_new_issue_is_open_and_escrows_bounty() {
    let step = WaveStakeContract::create_issue("s", "t", 500, 30, 1000, 1000, false).unwrap();
    assert!(well_formed(&step.issue));
    assert_eq!(escrow(&step.issue), inflow(step.transfer));
}

#[test]
fn law_escrow_follows_transfers() {
    let claimed = claimed_issue(500, 30, 2000);
    let open = Issue { slashed_pool: 12, ..open_issue(500, 30, 2000) };

    let step = WaveStakeContract::claim_issue(Some(open.clone()), "dev", 100).unwrap();
    assert_eq!(escrow(&step.issue), escrow(&open) + inflow(step.transfer));

    let step = WaveStakeContract::slash_ghost(Some(claimed.clone()), 2500).unwrap();
    assert_eq!(escrow(&step.issue), escrow(&claimed) + inflow(step.transfer));

    let step = WaveStakeContract::merge_and_reward(Some(claimed.clone())).unwrap();
    assert_eq!(escrow(&step.issue), escrow(&claimed) + inflow(step.transfer));
    assert_eq!(step.transfer, Transfer::Payout(escrow(&claimed)));

    let (step, _) = WaveStakeContract::graceful_forfeit(Some(claimed.clone()), 1, 100).unwrap();
    assert_eq!(escrow(&step.issue), escrow(&claimed) + inflow(step.transfer));

    let (step, _) = WaveStakeContract::request_extension(Some(claimed.clone()), 1, 10, 100).unwrap();
    assert_eq!(escrow(&step.issue), escrow(&claimed) + inflow(step.transfer));
}

#[test]
fn law_requests_keep_well_formedness_and_terms() {
    let claimed = Issue { slashed_pool: 3, ..claimed_issue(500, 31, 2000) };
    let mut after: Vec<Issue<&'static str>> = Vec::new();
    after.push(WaveStakeContract::claim_issue(Some(open_issue(500, 31, 2000)), "dev", 100).unwrap().issue);
    after.push(WaveStakeContract::slash_ghost(Some(claimed.clone()), 2000).unwrap().issue);
    after.push(WaveStakeContract::merge_and_reward(Some(claimed.clone())).unwrap().issue);
    after.push(WaveStakeContract::graceful_forfeit(Some(claimed.clone()), 1, 10).unwrap().0.issue);
    after.push(WaveStakeContract::request_extension(Some(claimed.clone()), 1, 10, 10).unwrap().0.issue);
    for issue in &after {
        assert!(well_formed(issue));
        assert_eq!(issue.sponsor, "sponsor");
        assert_eq!(issue.token, "token");
        assert_eq!(issue.bounty_amount, 500);
        assert_eq!(issue.stake_required, 31);
    }
    // claims, merges and forfeits keep the deadline
    for i in [0, 2, 3] {
        assert_eq!(after[i].deadline, 2000);
    }
    // a slash starts a new sprint from its own time; an extension adds to the deadline
    assert_eq!(after[1].deadline, 3000);
    assert_eq!(after[4].deadline, 2010);
}

#[test]
fn law_extension_only_once() {
    let (step, _) =
        WaveStakeContract::request_extension(Some(claimed_issue(500, 30, 2000)), 1, 500, 100).unwrap();
    let again = WaveStakeContract::request_extension(Some(step.issue), 1, 500, 200);
    assert_eq!(again.unwrap_err(), StakeError::NoFurtherExtensions);
}

#[test]
fn law_claim_is_exclusive() {
    let step: Step<&'static str> =
        WaveStakeContract::claim_issue(Some(open_issue(500, 30, 2000)), "dev", 100).unwrap();
    let rival = WaveStakeContract::claim_issue(Some(step.issue), "rival", 100);
    assert_eq!(rival.unwrap_err(), StakeError::IssueNotOpen);
}

#[test]
fn law_resolved_is_final() {
    assert!(WaveStakeContract::claim_issue(Some(resolved_issue()), "dev", 100).is_err());
    assert!(WaveStakeContract::slash_ghost(Some(resolved_issue()), 5000).is_err());
    assert!(WaveStakeContract::merge_and_reward(Some(resolved_issue())).is_err());
    assert!(WaveStakeContract::graceful_forfeit(Some(resolved_issue()), 1, 0).is_err());
    assert!(WaveStakeContract::request_extension(Some(resolved_issue()), 1, 50, 0).is_err());
}

#[test]
fn law_reopened_after_slash_or_forfeit() {
    let step = WaveStakeContract::slash_ghost(Some(claimed_issue(500, 30, 2000)), 2050).unwrap();
    assert_eq!(step.issue.status, IssueStatus::Open);
    assert_eq!(step.issue.current_contributor, None);
    assert_eq!(step.issue.deadline, 3050);
    assert!(WaveStakeContract::claim_issue(Some(step.issue), "next", 2050).is_ok());

    let extended = Issue { extensions_used: 1, ..claimed_issue(500, 30, 2000) };
    let (step, _) = WaveStakeContract::graceful_forfeit(Some(extended), 1, 100).unwrap();
    assert_eq!(step.issue.status, IssueStatus::Open);
    assert_eq!(step.issue.extensions_used, 0);
    assert!(WaveStakeContract::claim_issue(Some(step.issue), "next", 100).is_ok());
}

#[test]
fn law_forfeit_splits_stake() {
    let extended = Issue { extensions_used: 1, slashed_pool: 5, ..claimed_issue(500, 30, 2000) };
    let (step, event) = WaveStakeContract::graceful_forfeit(Some(extended), 1, 100).unwrap();
    assert_eq!(event.returned_stake, 30);
    assert_eq!(event.returned_stake + (step.issue.slashed_pool - 5), 60);
}

#[test]
fn law_next_contributor_collects_slashed_stake() {
    let ghosted = Issue { extensions_used: 1, slashed_pool: 7, ..claimed_issue(500, 30, 2000) };
    let reopened = WaveStakeContract::slash_ghost(Some(ghosted), 2000).unwrap().issue;
    assert_eq!(reopened.slashed_pool, 7 + 60);
    let claimed = WaveStakeContract::claim_issue(Some(reopened), "next", 2000).unwrap().issue;
    let merged = WaveStakeContract::merge_and_reward(Some(claimed)).unwrap();
    assert_eq!(merged.transfer, Transfer::Payout(500 + 7 + 60 + 30));
}
