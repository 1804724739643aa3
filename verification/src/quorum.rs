//! Quorum accumulation and evaluation. Each beneficiary accumulates a
//! deduplicated set of approving validators; a claim reaches consensus once
//! the set meets the threshold demanded by the epoch's active-validator count
//! and every approver's group lies within the failover tolerance of the first
//! approver's group.

use vstd::prelude::*;
use crate::errors::ErrorCode;
use crate::ids::{Identity, contains_identity};
use crate::group::{
    spec_group_id, spec_circular_distance, calculate_group_id_mod, circular_distance,
};
use crate::policy::MAX_PARTIAL_VALIDATORS;
use crate::records::{PlayerPda, ValidatorPda};

verus! {

/// The result of evaluating one beneficiary's claim.
#[derive(Clone, Copy, Debug, PartialEq, Eq, Structural)]
pub enum QuorumOutcome {
    /// Too few approvals so far, or quorum is impossible (no active
    /// validators); the approval set is kept.
    Pending,
    /// Enough approvals, all within the failover tolerance.
    Consensus,
    /// Some approver's group is too far from the first approver's group; the
    /// approval set is preserved for later retries.
    Rejected,
}

/// The number of distinct approvals a claim needs, given the count of
/// validators active this epoch; `None` when no validator is active, in which
/// case quorum is impossible.
pub open spec fn spec_threshold(active_validators: int) -> Option<int> {
    if active_validators > 1 {
        Some(2int)
    } else if active_validators == 1 {
        Some(1int)
    } else {
        None
    }
}

/// The approval set after one validator's approval: unchanged if the
/// validator is already present or the set is at capacity, otherwise the
/// validator is appended.
pub open spec fn spec_approvals_after(s: Seq<Identity>, v: Identity) -> Seq<Identity> {
    if s.contains(v) || s.len() >= MAX_PARTIAL_VALIDATORS {
        s
    } else {
        s.push(v)
    }
}

/// Recording the same validator twice changes nothing beyond the first time:
/// the approval set cannot grow however often one validator resubmits.
pub proof fn lemma_approval_idempotent(s: Seq<Identity>, v: Identity)
    ensures
        spec_approvals_after(spec_approvals_after(s, v), v) == spec_approvals_after(s, v),
{
    if !s.contains(v) && s.len() < MAX_PARTIAL_VALIDATORS {
        assert(spec_approvals_after(s, v) == s.push(v));
        assert(s.push(v)[s.len() as int] == v);
        assert(s.push(v).contains(v));
    }
}

/// An approval never introduces a duplicate: every validator stays in the set
/// at most once.
pub proof fn lemma_approval_distinct(s: Seq<Identity>, v: Identity)
    requires
        s.no_duplicates(),
    ensures
        spec_approvals_after(s, v).no_duplicates(),
{
    if !s.contains(v) && s.len() < MAX_PARTIAL_VALIDATORS {
        let sp = s.push(v);
        assert forall|i: int, j: int| 0 <= i < sp.len() && 0 <= j < sp.len() && i != j
            implies sp[i] != sp[j] by {
            if i < s.len() && j < s.len() {
            } else if i < s.len() && j == s.len() {
                assert(s[i] == sp[i]);
                if sp[i] == v {
                    assert(s.contains(v));
                }
            } else if j < s.len() && i == s.len() {
                assert(s[j] == sp[j]);
                if sp[j] == v {
                    assert(s.contains(v));
                }
            }
        }
    }
}

/// How one approval was taken: appended, deduplicated, or refused because the
/// set is at capacity.
#[derive(Clone, Copy, Debug, PartialEq, Eq, Structural)]
pub enum ApprovalStatus {
    /// The validator was appended to the approval set.
    Recorded,
    /// The validator was already among the approvers; nothing changed.
    AlreadyRecorded,
    /// The approval set is at capacity and the validator is not in it; the
    /// approval is rejected and nothing changes.
    SetFull,
}

/// The status one validator's approval receives against an approval set.
pub open spec fn spec_approval_status(s: Seq<Identity>, v: Identity) -> ApprovalStatus {
    if s.contains(v) {
        ApprovalStatus::AlreadyRecorded
    } else if s.len() >= MAX_PARTIAL_VALIDATORS {
        ApprovalStatus::SetFull
    } else {
        ApprovalStatus::Recorded
    }
}

/// Adds `validator_key` to the beneficiary's pending approvals unless it is
/// already there or the set is at capacity; nothing else changes.
pub(crate) fn record_approval(player: &mut PlayerPda, validator_key: &Identity)
    requires
        old(player).wf(),
    ensures
        final(player).wf(),
        final(player).partial_validators@
            == spec_approvals_after(old(player).partial_validators@, *validator_key),
        final(player).name == old(player).name,
        final(player).authority == old(player).authority,
        final(player).reward_address == old(player).reward_address,
        final(player).last_name_change == old(player).last_name_change,
        final(player).last_reward_change == old(player).last_reward_change,
        final(player).last_minted == old(player).last_minted,
        final(player).pending_claim_ts == old(player).pending_claim_ts,
        final(player).pending_game_time_ms == old(player).pending_game_time_ms,
        final(player).pending_paid == old(player).pending_paid,
        final(player).last_claim_ts == old(player).last_claim_ts,
{
    let present = contains_identity(&player.partial_validators, validator_key);
    if !present && player.partial_validators.len() < MAX_PARTIAL_VALIDATORS {
        player.partial_validators.push(*validator_key);
    }
    proof {
        lemma_approval_distinct(old(player).partial_validators@, *validator_key);
    }
}

/// The split-instruction approve: a registered validator adds itself to the
/// beneficiary's pending approvals (deduplicated, and refused when the set is
/// at capacity). A signer who does not own the validator record is rejected
/// and nothing changes.
pub fn approve_player_minting(
    player: &mut PlayerPda,
    validator: &ValidatorPda,
    validator_key: &Identity,
) -> (r: Result<ApprovalStatus, ErrorCode>)
    requires
        old(player).wf(),
    ensures
        final(player).wf(),
        validator.address != *validator_key ==> r == Err::<ApprovalStatus, ErrorCode>(
            ErrorCode::ValidatorNotRegistered,
        ) && *final(player) == *old(player),
        validator.address == *validator_key ==> {
            &&& r == Ok::<ApprovalStatus, ErrorCode>(
                spec_approval_status(old(player).partial_validators@, *validator_key),
            )
            &&& final(player).partial_validators@ == spec_approvals_after(
                old(player).partial_validators@,
                *validator_key,
            )
            &&& *final(player) == (PlayerPda {
                partial_validators: final(player).partial_validators,
                ..*old(player)
            })
        },
{
    if !validator.address.equals(validator_key) {
        return Err(ErrorCode::ValidatorNotRegistered);
    }
    let present = contains_identity(&player.partial_validators, validator_key);
    let status = if present {
        ApprovalStatus::AlreadyRecorded
    } else if player.partial_validators.len() >= MAX_PARTIAL_VALIDATORS {
        ApprovalStatus::SetFull
    } else {
        player.partial_validators.push(*validator_key);
        ApprovalStatus::Recorded
    };
    proof {
        lemma_approval_distinct(old(player).partial_validators@, *validator_key);
    }
    Ok(status)
}

/// Whether every approver beyond the first sits within `tolerance` circular
/// group-distance of the first approver's group.
pub open spec fn spec_groups_within_tolerance(
    approvals: Seq<Identity>,
    seed: u64,
    total_groups: int,
    tolerance: int,
) -> bool {
    forall|k: int| 1 <= k < approvals.len() ==> spec_circular_distance(
        #[trigger] spec_group_id(approvals[k]@, seed, total_groups),
        spec_group_id(approvals[0]@, seed, total_groups),
        total_groups,
    ) <= tolerance
}

/// Checks group proximity of all approvers against the first one.
pub fn check_group_consensus(
    approvals: &Vec<Identity>,
    seed: u64,
    total_groups: u64,
    tolerance: u64,
) -> (r: bool)
    requires
        approvals@.len() >= 1,
    ensures
        r == spec_groups_within_tolerance(approvals@, seed, total_groups as int, tolerance as int),
{
    if total_groups == 0 {
        proof {
            assert forall|k: int| 1 <= k < approvals@.len() implies spec_circular_distance(
                #[trigger] spec_group_id(approvals@[k]@, seed, 0),
                spec_group_id(approvals@[0]@, seed, 0),
                0,
            ) <= tolerance as int by {
                assert(spec_group_id(approvals@[k]@, seed, 0) == 0);
                assert(spec_circular_distance(0, 0, 0) == 0);
            }
        }
        return true;
    }
    let first_gid = calculate_group_id_mod(&approvals[0], seed, total_groups);
    let mut k: usize = 1;
    while k < approvals.len()
        invariant
            1 <= k <= approvals@.len(),
            total_groups > 0,
            first_gid == spec_group_id(approvals@[0]@, seed, total_groups as int),
            first_gid < total_groups,
            forall|j: int| 1 <= j < k ==> spec_circular_distance(
                #[trigger] spec_group_id(approvals@[j]@, seed, total_groups as int),
                spec_group_id(approvals@[0]@, seed, total_groups as int),
                total_groups as int,
            ) <= tolerance as int,
        decreases approvals@.len() - k,
    {
        let gid = calculate_group_id_mod(&approvals[k], seed, total_groups);
        let dist = circular_distance(gid, first_gid, total_groups);
        if dist > tolerance {
            return false;
        }
        k = k + 1;
    }
    true
}

/// The outcome of evaluating a claim whose approval set is `approvals`: quorum
/// is impossible without a seed or an active validator; below the threshold
/// the claim stays pending; approvers from groups beyond the tolerance reject
/// it; otherwise it reaches consensus.
pub open spec fn spec_quorum_outcome(
    approvals: Seq<Identity>,
    seed: Option<u64>,
    active_validators: int,
    total_groups: int,
    tolerance: int,
) -> QuorumOutcome {
    if seed is None || spec_threshold(active_validators) is None {
        QuorumOutcome::Pending
    } else if approvals.len() < spec_threshold(active_validators)->Some_0 {
        QuorumOutcome::Pending
    } else if !spec_groups_within_tolerance(approvals, seed->Some_0, total_groups, tolerance) {
        QuorumOutcome::Rejected
    } else {
        QuorumOutcome::Consensus
    }
}

/// Evaluates a claim's approval set against the threshold and the group
/// tolerance.
pub fn evaluate_quorum(
    approvals: &Vec<Identity>,
    seed: Option<u64>,
    active_validators: u32,
    total_groups: u64,
    tolerance: u64,
) -> (r: QuorumOutcome)
    ensures
        r == spec_quorum_outcome(
            approvals@,
            seed,
            active_validators as int,
            total_groups as int,
            tolerance as int,
        ),
{
    let seed_value: u64 = match seed {
        Option::Some(s) => s,
        Option::None => {
            return QuorumOutcome::Pending;
        },
    };
    let needed: usize = if active_validators > 1 {
        2
    } else if active_validators == 1 {
        1
    } else {
        return QuorumOutcome::Pending;
    };
    if approvals.len() < needed {
        return QuorumOutcome::Pending;
    }
    if check_group_consensus(approvals, seed_value, total_groups, tolerance) {
        QuorumOutcome::Consensus
    } else {
        QuorumOutcome::Rejected
    }
}

/// The split-instruction finalize: evaluates the claim that earlier
/// `approve_player_minting` calls accumulated, against a fixed two-approval
/// quorum, and clears the approval set exactly when consensus is reached.
/// (In this flow the issuance amounts themselves travel with the batched
/// submission path.)
pub fn finalize_player_minting(
    player: &mut PlayerPda,
    seed: Option<u64>,
    total_validators: u32,
) -> (r: QuorumOutcome)
    requires
        old(player).wf(),
    ensures
        final(player).wf(),
        r == spec_quorum_outcome(
            old(player).partial_validators@,
            seed,
            2,
            crate::group::spec_total_groups(total_validators as int),
            crate::group::spec_failover_tolerance(total_validators as int),
        ),
        r == QuorumOutcome::Consensus ==> final(player).partial_validators@
            == Seq::<Identity>::empty() && *final(player) == (PlayerPda {
            partial_validators: final(player).partial_validators,
            ..*old(player)
        }),
        r != QuorumOutcome::Consensus ==> *final(player) == *old(player),
{
    let tg = crate::group::total_groups(total_validators);
    let tol = crate::group::calculate_failover_tolerance(total_validators);
    let q = evaluate_quorum(&player.partial_validators, seed, 2, tg, tol);
    match q {
        QuorumOutcome::Consensus => {
            player.partial_validators.clear();
        },
        _ => {},
    }
    q
}

/// Quorum never succeeds below the threshold: a `Consensus` outcome implies
/// the approval set is at least as large as the threshold demanded by the
/// active-validator count, and that a threshold exists at all.
pub proof fn lemma_consensus_meets_threshold(
    approvals: Seq<Identity>,
    seed: Option<u64>,
    active_validators: int,
    total_groups: int,
    tolerance: int,
)
    requires
        spec_quorum_outcome(approvals, seed, active_validators, total_groups, tolerance)
            == QuorumOutcome::Consensus,
    ensures
        spec_threshold(active_validators) is Some,
        approvals.len() >= spec_threshold(active_validators)->Some_0,
        seed is Some,
{
}

} // verus!
