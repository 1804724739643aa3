//! The submission engine: check-ins (which drive the epoch clock, the
//! active-validator tracker and the shared seed) and batch reward
//! submissions, processed one beneficiary at a time. Each beneficiary's step
//! is pinned to a single specification function, over which the library's
//! replay and concurrency laws are proved.

use vstd::prelude::*;
use crate::commission::{compute_commission, spec_commission};
use crate::errors::ErrorCode;
use crate::hashing::spec_seed_value;
use crate::hashing::generate_seed;
use crate::ids::{Identity, contains_identity};
use crate::policy::{
    MAX_HOUR_TIMESTAMP, MAX_PARTIAL_VALIDATORS, MAX_RATE, MAX_SESSION_SECONDS, MAX_WINDOW_MINUTES,
    MIN_WINDOW_MINUTES, QUIET_MINUTES,
};
use crate::quorum::{
    QuorumOutcome, evaluate_quorum, record_approval, spec_approvals_after, spec_quorum_outcome,
};
use crate::records::{Dapp, PlayerPda, ValidatorPda};
use crate::throttle::{
    elapsed_minutes, issuance_amount, spec_elapsed_minutes, spec_in_window, spec_time_or_zero,
};

verus! {

/// The hour bucket of a timestamp.
pub open spec fn spec_hour(t: int) -> int {
    t / 3600
}

/// The epoch hour recorded after a check-in at `now`: initialized when unset,
/// advanced on rollover, kept otherwise.
pub open spec fn spec_reset_hour_after(dapp: Dapp, now: i64) -> Option<u32> {
    if dapp.last_reset_hour is Some && spec_hour(now as int) <= dapp.last_reset_hour->Some_0 {
        dapp.last_reset_hour
    } else {
        Some(spec_hour(now as int) as u32)
    }
}

/// The active-validator count after a check-in at `now`: reset to zero on
/// rollover, then incremented when this validator has not yet checked in this
/// hour and the count has room.
pub open spec fn spec_active_after_punch(dapp: Dapp, validator: ValidatorPda, now: i64) -> u32 {
    let h = spec_hour(now as int);
    let base: u32 = if dapp.last_reset_hour is Some && h > dapp.last_reset_hour->Some_0 {
        0
    } else {
        dapp.active_validator_count
    };
    let vh = if validator.last_activity > 0 {
        spec_hour(validator.last_activity as int)
    } else {
        0
    };
    if vh < h && base < dapp.validator_count {
        (base + 1) as u32
    } else {
        base
    }
}

/// A validator checks in: the epoch clock rolls the hour bucket over and
/// resets the active count when a new hour has begun; the validator is
/// counted active once per hour; its activity is stamped; and the shared
/// seed is rederived from this validator's identity and the monotonic
/// `slot` counter — unconditionally, last writer wins.
pub fn punch_in(dapp: &mut Dapp, validator: &mut ValidatorPda, slot: u64, now: i64)
    requires
        old(dapp).wf(),
        old(validator).wf(),
        0 <= now <= MAX_HOUR_TIMESTAMP,
    ensures
        final(dapp).wf(),
        final(validator).wf(),
        *final(dapp) == (Dapp {
            active_validator_count: spec_active_after_punch(*old(dapp), *old(validator), now),
            last_reset_hour: spec_reset_hour_after(*old(dapp), now),
            last_seed: Some(spec_seed_value(old(validator).address@, slot) as u64),
            last_punch_in_time: Some(now),
            ..*old(dapp)
        }),
        *final(validator) == (ValidatorPda { last_activity: now, ..*old(validator) }),
{
    let current_hour: u32 = (now / 3600) as u32;
    match dapp.last_reset_hour {
        Option::Some(lh) => {
            if current_hour > lh {
                dapp.active_validator_count = 0;
                dapp.last_reset_hour = Some(current_hour);
            }
        },
        Option::None => {
            dapp.last_reset_hour = Some(current_hour);
        },
    }
    let validator_last_hour: u32 = if validator.last_activity > 0 {
        (validator.last_activity / 3600) as u32
    } else {
        0
    };
    if validator_last_hour < current_hour {
        if dapp.active_validator_count < dapp.validator_count {
            dapp.active_validator_count = dapp.active_validator_count + 1;
        }
    }
    validator.last_activity = now;
    let seed = generate_seed(&validator.address, slot);
    dapp.last_seed = Some(seed);
    dapp.last_punch_in_time = Some(now);
}

/// The per-beneficiary outcome of a submission, reported per item so a batch
/// can mix successes and rejections.
#[derive(Clone, Copy, Debug, PartialEq, Eq, Structural)]
pub enum MintOutcome {
    /// No shared seed has been generated yet; nothing changes.
    NoSeed,
    /// The approval was recorded (or was already present) but quorum is not
    /// reached, or no validator is active this epoch.
    Pending,
    /// The submitting validator is not among the approvers and the approval
    /// set is at capacity: the approval is rejected and nothing changes.
    ApprovalSetFull,
    /// Quorum was reached but some approver's group lies beyond the failover
    /// tolerance; the approval set is preserved.
    FailoverRejected,
    /// Consensus, but the elapsed time is outside the issuance window: the
    /// cooldown is stamped, nothing is minted.
    OutOfWindow,
    /// Another issuance touched this beneficiary since the caller read the
    /// record; skipped without minting.
    ConcurrencySkipped,
    /// Minted: pay `amount` to the beneficiary's reward address and, when
    /// positive, `commission` to the commission account.
    Minted { amount: u64, commission: u64 },
}

/// The beneficiary fields a submission step may change, plus its outcome.
pub struct StepResult {
    pub approvals: Seq<Identity>,
    pub last_minted: Option<i64>,
    pub outcome: MintOutcome,
}

/// One beneficiary's submission step. With no seed nothing happens. Otherwise
/// the validator's approval is recorded (deduplicated, capacity-bounded) and
/// the quorum is evaluated; on consensus the elapsed time must fall in the
/// issuance window, else only the cooldown is stamped; the concurrency guard
/// then compares the stored cooldown against what the caller observed when it
/// began; if they still agree, the amount and commission are computed, the
/// approval set is cleared and the cooldown is stamped.
pub open spec fn spec_process_player(
    approvals0: Seq<Identity>,
    last_minted0: Option<i64>,
    observed: i64,
    vkey: Identity,
    seed: Option<u64>,
    now: i64,
    active_validators: int,
    total_groups: int,
    tolerance: int,
    rate: u64,
    pct: u16,
) -> StepResult {
    if seed is None {
        StepResult { approvals: approvals0, last_minted: last_minted0, outcome: MintOutcome::NoSeed }
    } else if !approvals0.contains(vkey) && approvals0.len() >= MAX_PARTIAL_VALIDATORS {
        StepResult {
            approvals: approvals0,
            last_minted: last_minted0,
            outcome: MintOutcome::ApprovalSetFull,
        }
    } else {
        let a1 = spec_approvals_after(approvals0, vkey);
        let q = spec_quorum_outcome(a1, seed, active_validators, total_groups, tolerance);
        if q == QuorumOutcome::Pending {
            StepResult { approvals: a1, last_minted: last_minted0, outcome: MintOutcome::Pending }
        } else if q == QuorumOutcome::Rejected {
            StepResult {
                approvals: a1,
                last_minted: last_minted0,
                outcome: MintOutcome::FailoverRejected,
            }
        } else {
            let last0 = spec_time_or_zero(last_minted0);
            let minutes = spec_elapsed_minutes(now as int, last0 as int);
            if !spec_in_window(minutes) {
                StepResult { approvals: a1, last_minted: Some(now), outcome: MintOutcome::OutOfWindow }
            } else if last0 != observed {
                StepResult {
                    approvals: a1,
                    last_minted: last_minted0,
                    outcome: MintOutcome::ConcurrencySkipped,
                }
            } else {
                let amount = (minutes * rate) as u64;
                let commission = spec_commission(amount, pct) as u64;
                StepResult {
                    approvals: Seq::empty(),
                    last_minted: Some(now),
                    outcome: MintOutcome::Minted { amount, commission },
                }
            }
        }
    }
}

/// Processes one beneficiary of a submission batch; `observed_last_minted` is
/// the cooldown value the caller read when it began processing this
/// beneficiary, re-checked here against the record before minting.
pub fn process_player(
    player: &mut PlayerPda,
    observed_last_minted: i64,
    validator_key: &Identity,
    seed: Option<u64>,
    now: i64,
    active_validators: u32,
    total_groups: u64,
    tolerance: u64,
    coin_issuance_rate: u64,
    commission_percent: u16,
) -> (outcome: MintOutcome)
    requires
        old(player).wf(),
        0 <= now <= MAX_HOUR_TIMESTAMP,
        coin_issuance_rate <= MAX_RATE,
        commission_percent <= 100,
    ensures
        final(player).wf(),
        ({
            let r = spec_process_player(
                old(player).partial_validators@,
                old(player).last_minted,
                observed_last_minted,
                *validator_key,
                seed,
                now,
                active_validators as int,
                total_groups as int,
                tolerance as int,
                coin_issuance_rate,
                commission_percent,
            );
            &&& outcome == r.outcome
            &&& final(player).partial_validators@ == r.approvals
            &&& final(player).last_minted == r.last_minted
        }),
        final(player).name == old(player).name,
        final(player).authority == old(player).authority,
        final(player).reward_address == old(player).reward_address,
        final(player).last_name_change == old(player).last_name_change,
        final(player).last_reward_change == old(player).last_reward_change,
        final(player).pending_claim_ts == old(player).pending_claim_ts,
        final(player).pending_game_time_ms == old(player).pending_game_time_ms,
        final(player).pending_paid == old(player).pending_paid,
        final(player).last_claim_ts == old(player).last_claim_ts,
{
    if seed.is_none() {
        return MintOutcome::NoSeed;
    }
    let present = contains_identity(&player.partial_validators, validator_key);
    if !present && player.partial_validators.len() >= MAX_PARTIAL_VALIDATORS {
        return MintOutcome::ApprovalSetFull;
    }
    record_approval(player, validator_key);
    let q = evaluate_quorum(
        &player.partial_validators,
        seed,
        active_validators,
        total_groups,
        tolerance,
    );
    match q {
        QuorumOutcome::Pending => {
            return MintOutcome::Pending;
        },
        QuorumOutcome::Rejected => {
            return MintOutcome::FailoverRejected;
        },
        QuorumOutcome::Consensus => {},
    }
    let last0: i64 = match player.last_minted {
        Option::Some(t) => t,
        Option::None => 0,
    };
    let minutes = elapsed_minutes(now, last0);
    if !(MIN_WINDOW_MINUTES <= minutes && minutes <= MAX_WINDOW_MINUTES) {
        player.last_minted = Some(now);
        return MintOutcome::OutOfWindow;
    }
    if last0 != observed_last_minted {
        return MintOutcome::ConcurrencySkipped;
    }
    let amount = issuance_amount(minutes, coin_issuance_rate);
    let commission = compute_commission(amount, commission_percent);
    player.partial_validators.clear();
    player.last_minted = Some(now);
    MintOutcome::Minted { amount, commission }
}

/// A reason the whole batch was refused as a no-op (not an error): the epoch
/// gates of a submission.
#[derive(Clone, Copy, Debug, PartialEq, Eq, Structural)]
pub enum BatchGate {
    /// No validator has checked in during the current hour.
    NoPunchInThisHour,
    /// The submitting validator has not checked in during the current hour.
    ValidatorInactiveThisHour,
    /// The current hour's quiet window is still open.
    QuietWindow,
}

/// What a submission returned: blocked at an epoch gate, or processed with
/// one outcome per beneficiary.
#[derive(Debug)]
pub enum SubmitOutcome {
    Blocked(BatchGate),
    Processed(Vec<MintOutcome>),
}

/// Whether no check-in has happened in `now`'s hour.
pub open spec fn spec_no_punch_this_hour(dapp: Dapp, now: i64) -> bool {
    dapp.last_punch_in_time is None || spec_hour(dapp.last_punch_in_time->Some_0 as int)
        != spec_hour(now as int)
}

/// Whether the submitting validator has not checked in in `now`'s hour.
pub open spec fn spec_validator_inactive(v: ValidatorPda, now: i64) -> bool {
    spec_hour(v.last_activity as int) != spec_hour(now as int)
}

/// Whether `now` falls in the quiet window at the start of its hour.
pub open spec fn spec_quiet_window(now: i64) -> bool {
    (now as int % 3600) / 60 < QUIET_MINUTES
}

/// The up-front decision of a submission, in evaluation order: the signer
/// must own the validator record; an uncurated deployment demands a gateway
/// attestation; someone — and this validator — must have checked in this
/// hour; the quiet window must be over; and the supplied commission account
/// must match the configured one. `None` means the batch is processed.
pub open spec fn spec_submit_precheck(
    dapp: Dapp,
    validator: ValidatorPda,
    validator_key: Identity,
    gateway_ok: bool,
    commission_ata: Option<Identity>,
    now: i64,
) -> Option<Result<BatchGate, ErrorCode>> {
    if validator.address != validator_key {
        Some(Err(ErrorCode::ValidatorNotRegistered))
    } else if !dapp.curated_val && !gateway_ok {
        Some(Err(ErrorCode::GatewayVerificationFailed))
    } else if spec_no_punch_this_hour(dapp, now) {
        Some(Ok(BatchGate::NoPunchInThisHour))
    } else if spec_validator_inactive(validator, now) {
        Some(Ok(BatchGate::ValidatorInactiveThisHour))
    } else if spec_quiet_window(now) {
        Some(Ok(BatchGate::QuietWindow))
    } else if commission_ata is None {
        Some(Err(ErrorCode::MissingCommissionAta))
    } else if commission_ata->Some_0 != dapp.commission_ata {
        Some(Err(ErrorCode::InvalidCommissionAta))
    } else {
        None
    }
}

/// Whether `p1` and `outcome` are what one submission step by `vkey` makes of
/// `p0` under the given policy: the step's specification holds and every
/// other field is untouched.
pub open spec fn spec_player_step_applied(
    p0: PlayerPda,
    p1: PlayerPda,
    outcome: MintOutcome,
    vkey: Identity,
    seed: Option<u64>,
    now: i64,
    active_validators: int,
    total_groups: int,
    tolerance: int,
    rate: u64,
    pct: u16,
) -> bool {
    let r = spec_process_player(
        p0.partial_validators@,
        p0.last_minted,
        spec_time_or_zero(p0.last_minted),
        vkey,
        seed,
        now,
        active_validators,
        total_groups,
        tolerance,
        rate,
        pct,
    );
    &&& outcome == r.outcome
    &&& p1.partial_validators@ == r.approvals
    &&& p1.last_minted == r.last_minted
    &&& p1.wf()
    &&& p1.name == p0.name
    &&& p1.authority == p0.authority
    &&& p1.reward_address == p0.reward_address
    &&& p1.last_name_change == p0.last_name_change
    &&& p1.last_reward_change == p0.last_reward_change
    &&& p1.pending_claim_ts == p0.pending_claim_ts
    &&& p1.pending_game_time_ms == p0.pending_game_time_ms
    &&& p1.pending_paid == p0.pending_paid
    &&& p1.last_claim_ts == p0.last_claim_ts
}

/// Processes a batch of beneficiaries. After the epoch gates pass, each
/// beneficiary is processed independently in order — the guard value for
/// the concurrency check is read from its record as processing reaches it —
/// and a per-item outcome is reported; the submitting validator's own
/// `last_minted` is stamped when at least one beneficiary was minted for.
/// A gate or a precondition error leaves every record untouched.
pub fn submit_minting_list(
    dapp: &Dapp,
    validator: &mut ValidatorPda,
    validator_key: &Identity,
    gateway_ok: bool,
    commission_ata: Option<Identity>,
    players: &mut Vec<PlayerPda>,
    now: i64,
) -> (r: Result<SubmitOutcome, ErrorCode>)
    requires
        dapp.wf(),
        old(validator).wf(),
        forall|j: int| 0 <= j < old(players)@.len() ==> (#[trigger] old(players)@[j]).wf(),
        0 <= now <= MAX_HOUR_TIMESTAMP,
    ensures
        final(validator).wf(),
        final(players)@.len() == old(players)@.len(),
        ({
            let pre = spec_submit_precheck(
                *dapp,
                *old(validator),
                *validator_key,
                gateway_ok,
                commission_ata,
                now,
            );
            &&& (pre matches Some(Err(e)) ==> r is Err && r->Err_0 == e)
            &&& (pre matches Some(Ok(g)) ==> (r matches Ok(o) && (o matches SubmitOutcome::Blocked(
                g2,
            ) && g2 == g)))
            &&& (pre is Some ==> *final(validator) == *old(validator) && final(players)@ == old(
                players,
            )@)
            &&& (pre is None ==> (r matches Ok(o) && (o matches SubmitOutcome::Processed(outcomes)
                && {
                let seed = dapp.last_seed;
                let active = dapp.active_validator_count as int;
                let tg = crate::group::spec_total_groups(dapp.validator_count as int);
                let tol = crate::group::spec_failover_tolerance(dapp.validator_count as int);
                &&& outcomes@.len() == old(players)@.len()
                &&& (forall|j: int| 0 <= j < outcomes@.len() ==> spec_player_step_applied(
                    old(players)@[j],
                    final(players)@[j],
                    #[trigger] outcomes@[j],
                    *validator_key,
                    seed,
                    now,
                    active,
                    tg,
                    tol,
                    dapp.coin_issuance_rate,
                    dapp.commission_percent,
                ))
                &&& *final(validator) == (if (exists|j: int|
                    0 <= j < outcomes@.len() && (#[trigger] outcomes@[j]) is Minted) {
                    ValidatorPda { last_minted: Some(now), ..*old(validator) }
                } else {
                    *old(validator)
                })
            })))
        }),
{
    if !validator.address.equals(validator_key) {
        return Err(ErrorCode::ValidatorNotRegistered);
    }
    if !dapp.curated_val && !gateway_ok {
        return Err(ErrorCode::GatewayVerificationFailed);
    }
    let current_hour: i64 = now / 3600;
    let punched_this_hour: bool = match dapp.last_punch_in_time {
        Option::Some(t) => t / 3600 == current_hour,
        Option::None => false,
    };
    if !punched_this_hour {
        return Ok(SubmitOutcome::Blocked(BatchGate::NoPunchInThisHour));
    }
    if validator.last_activity / 3600 != current_hour {
        return Ok(SubmitOutcome::Blocked(BatchGate::ValidatorInactiveThisHour));
    }
    let current_minute: i64 = (now % 3600) / 60;
    if current_minute < QUIET_MINUTES as i64 {
        return Ok(SubmitOutcome::Blocked(BatchGate::QuietWindow));
    }
    let commission_key: Identity = match commission_ata {
        Option::Some(c) => c,
        Option::None => {
            return Err(ErrorCode::MissingCommissionAta);
        },
    };
    if !commission_key.equals(&dapp.commission_ata) {
        return Err(ErrorCode::InvalidCommissionAta);
    }
    let seed_opt = dapp.last_seed;
    let active = dapp.active_validator_count;
    let tg = crate::group::total_groups(dapp.validator_count);
    let tol = crate::group::calculate_failover_tolerance(dapp.validator_count);
    let ghost players0: Seq<PlayerPda> = players@;
    let mut outcomes: Vec<MintOutcome> = Vec::new();
    let mut any_minted: bool = false;
    let mut i: usize = 0;
    while i < players.len()
        invariant
            i <= players@.len(),
            players@.len() == players0.len(),
            outcomes@.len() == i,
            dapp.wf(),
            0 <= now <= MAX_HOUR_TIMESTAMP,
            tg == crate::group::spec_total_groups(dapp.validator_count as int),
            tol == crate::group::spec_failover_tolerance(dapp.validator_count as int),
            seed_opt == dapp.last_seed,
            active == dapp.active_validator_count,
            forall|j: int| i <= j < players0.len() ==> players@[j] == players0[j],
            forall|j: int| 0 <= j < players0.len() ==> (#[trigger] players0[j]).wf(),
            forall|j: int| 0 <= j < i ==> spec_player_step_applied(
                players0[j],
                players@[j],
                #[trigger] outcomes@[j],
                *validator_key,
                seed_opt,
                now,
                active as int,
                tg as int,
                tol as int,
                dapp.coin_issuance_rate,
                dapp.commission_percent,
            ),
            any_minted == (exists|j: int|
                0 <= j < i && (#[trigger] outcomes@[j]) is Minted),
            *validator == (if any_minted {
                ValidatorPda { last_minted: Some(now), ..*old(validator) }
            } else {
                *old(validator)
            }),
        decreases players@.len() - i,
    {
        proof {
            assert(players@[i as int] == players0[i as int]);
            assert(players0[i as int].wf());
        }
        let p = &mut players[i];
        let observed: i64 = match p.last_minted {
            Option::Some(t) => t,
            Option::None => 0,
        };
        let outcome = process_player(
            p,
            observed,
            validator_key,
            seed_opt,
            now,
            active,
            tg,
            tol,
            dapp.coin_issuance_rate,
            dapp.commission_percent,
        );
        let ghost prev: Seq<MintOutcome> = outcomes@;
        outcomes.push(outcome);
        match outcome {
            MintOutcome::Minted { .. } => {
                validator.last_minted = Some(now);
                any_minted = true;
            },
            _ => {},
        }
        proof {
            assert(outcomes@ == prev.push(outcome));
            assert(outcomes@[i as int] == outcome);
            assert(forall|j: int| 0 <= j < i ==> outcomes@[j] == prev[j]);
            if outcome is Minted {
                assert(0 <= i < i + 1 && (outcomes@[i as int]) is Minted);
            } else if any_minted {
                let j0 = choose|j: int| 0 <= j < i && (#[trigger] prev[j]) is Minted;
                assert((outcomes@[j0]) is Minted);
            }
        }
        i = i + 1;
    }
    Ok(SubmitOutcome::Processed(outcomes))
}

/// Once a seed exists, a submission step leaves the approval set empty
/// exactly when it minted: recording an approval always leaves at least the
/// submitting validator in the set, and only a successful issuance clears it.
pub proof fn lemma_approvals_cleared_iff_minted(
    approvals0: Seq<Identity>,
    last_minted0: Option<i64>,
    observed: i64,
    vkey: Identity,
    seed: Option<u64>,
    now: i64,
    active_validators: int,
    total_groups: int,
    tolerance: int,
    rate: u64,
    pct: u16,
)
    requires
        seed is Some,
    ensures
        ({
            let r = spec_process_player(
                approvals0,
                last_minted0,
                observed,
                vkey,
                seed,
                now,
                active_validators,
                total_groups,
                tolerance,
                rate,
                pct,
            );
            r.approvals.len() == 0 <==> r.outcome is Minted
        }),
{
    let a1 = spec_approvals_after(approvals0, vkey);
    if !approvals0.contains(vkey) && approvals0.len() < crate::policy::MAX_PARTIAL_VALIDATORS {
        assert(a1.len() == approvals0.len() + 1);
    } else if approvals0.contains(vkey) {
        assert(approvals0.len() > 0);
    }
}

/// Resubmitting an out-of-window beneficiary is idempotent: once a submission
/// ended out-of-window (stamping the cooldown at `now`), any resubmission by
/// the same validator before a whole minute has passed is again
/// out-of-window, mints nothing, and leaves the approval set exactly as it
/// was — repeated attempts restamp the cooldown but cannot grow the state.
pub proof fn lemma_out_of_window_resubmission(
    approvals0: Seq<Identity>,
    last_minted0: Option<i64>,
    observed: i64,
    observed2: i64,
    vkey: Identity,
    seed: Option<u64>,
    now: i64,
    now2: i64,
    active_validators: int,
    total_groups: int,
    tolerance: int,
    rate: u64,
    pct: u16,
)
    requires
        spec_process_player(
            approvals0,
            last_minted0,
            observed,
            vkey,
            seed,
            now,
            active_validators,
            total_groups,
            tolerance,
            rate,
            pct,
        ).outcome == MintOutcome::OutOfWindow,
        now <= now2 < now + 60,
    ensures
        ({
            let r1 = spec_process_player(
                approvals0,
                last_minted0,
                observed,
                vkey,
                seed,
                now,
                active_validators,
                total_groups,
                tolerance,
                rate,
                pct,
            );
            let r2 = spec_process_player(
                r1.approvals,
                r1.last_minted,
                observed2,
                vkey,
                seed,
                now2,
                active_validators,
                total_groups,
                tolerance,
                rate,
                pct,
            );
            &&& r2.outcome == MintOutcome::OutOfWindow
            &&& r2.approvals == r1.approvals
            &&& r2.last_minted == Some(now2)
        }),
{
    let a1 = spec_approvals_after(approvals0, vkey);
    if approvals0.contains(vkey) {
        assert(a1.contains(vkey));
    } else {
        // the first step got past the capacity gate, so the validator was
        // appended and the resubmission cannot hit that gate
        assert(a1 == approvals0.push(vkey));
        assert(a1[approvals0.len() as int] == vkey);
        assert(a1.contains(vkey));
    }
    crate::quorum::lemma_approval_idempotent(approvals0, vkey);
}

/// At most one of two concurrent submissions mints. Both read the same
/// cooldown marker before processing; the host serializes them, so the
/// second runs on the record the first left behind. If the first minted, it
/// moved the cooldown at least a minute past the shared marker, so the
/// second — whatever validator submits it, under whatever seed, population
/// or policy — fails its guard (or an earlier gate) and does not mint.
pub proof fn lemma_concurrent_mint_excluded(
    approvals0: Seq<Identity>,
    last_minted0: Option<i64>,
    observed: i64,
    vkey1: Identity,
    vkey2: Identity,
    seed1: Option<u64>,
    seed2: Option<u64>,
    now1: i64,
    now2: i64,
    active1: int,
    active2: int,
    total_groups1: int,
    total_groups2: int,
    tolerance1: int,
    tolerance2: int,
    rate1: u64,
    rate2: u64,
    pct1: u16,
    pct2: u16,
)
    requires
        spec_process_player(
            approvals0,
            last_minted0,
            observed,
            vkey1,
            seed1,
            now1,
            active1,
            total_groups1,
            tolerance1,
            rate1,
            pct1,
        ).outcome is Minted,
    ensures
        ({
            let r1 = spec_process_player(
                approvals0,
                last_minted0,
                observed,
                vkey1,
                seed1,
                now1,
                active1,
                total_groups1,
                tolerance1,
                rate1,
                pct1,
            );
            let r2 = spec_process_player(
                r1.approvals,
                r1.last_minted,
                observed,
                vkey2,
                seed2,
                now2,
                active2,
                total_groups2,
                tolerance2,
                rate2,
                pct2,
            );
            !(r2.outcome is Minted)
        }),
{
    let last0 = spec_time_or_zero(last_minted0);
    let minutes1 = spec_elapsed_minutes(now1 as int, last0 as int);
    assert(last0 == observed);
    assert(minutes1 >= MIN_WINDOW_MINUTES);
    assert(now1 >= last0);
    assert(now1 - last0 >= 60);
}

/// The issuance owed for one validated session report.
#[derive(Clone, Copy, Debug, PartialEq, Eq, Structural)]
pub struct SessionIssuance {
    pub amount: u64,
    pub commission: u64,
}

/// The amount owed when a beneficiary's validated session time moves from its
/// stored value to `new_time`: the gained seconds, capped at a full session,
/// converted to whole minutes at `rate`.
pub open spec fn spec_session_amount(p: PlayerPda, new_time: u64, rate: u64) -> int {
    let old_time = spec_time_or_zero(p.pending_game_time_ms);
    let gained = if new_time >= old_time { new_time - old_time } else { 0 };
    let capped = if gained <= MAX_SESSION_SECONDS { gained } else { MAX_SESSION_SECONDS as int };
    (capped / 60) * rate
}

/// A validator reports a beneficiary's new total session time. The payout
/// account must be the beneficiary's stored reward address and the signer
/// must own the validator record; a mismatch rejects the call before
/// anything is mutated. Then the stored total is advanced, and the minutes
/// gained (capped at one full session) are issued at the configured rate,
/// with the commission computed alongside. Nothing is owed when no whole
/// minute was gained; only then does the validator's own participation stamp
/// stay untouched.
pub fn validate_player_pubg_time_slim(
    player: &mut PlayerPda,
    validator: &mut ValidatorPda,
    signer: &Identity,
    user_ata: &Identity,
    new_time_seconds: u64,
    coin_issuance_rate: u64,
    commission_percent: u16,
    now: i64,
) -> (r: Result<Option<SessionIssuance>, ErrorCode>)
    requires
        old(player).wf(),
        old(validator).wf(),
        0 <= now <= MAX_HOUR_TIMESTAMP,
        new_time_seconds <= MAX_HOUR_TIMESTAMP as u64,
        coin_issuance_rate <= MAX_RATE,
        commission_percent <= 100,
    ensures
        final(player).wf(),
        final(validator).wf(),
        *user_ata != old(player).reward_address ==> r == Err::<Option<SessionIssuance>, ErrorCode>(
            ErrorCode::InvalidAtaAccount,
        ),
        *user_ata == old(player).reward_address && old(validator).address != *signer ==> r
            == Err::<Option<SessionIssuance>, ErrorCode>(ErrorCode::ValidatorNotRegistered),
        r is Err ==> *final(player) == *old(player) && *final(validator) == *old(validator),
        *user_ata == old(player).reward_address && old(validator).address == *signer ==> {
            let owed = spec_session_amount(*old(player), new_time_seconds, coin_issuance_rate);
            &&& *final(player) == (PlayerPda {
                pending_game_time_ms: Some(new_time_seconds as i64),
                ..*old(player)
            })
            &&& (owed == 0 ==> r == Ok::<Option<SessionIssuance>, ErrorCode>(None)
                && *final(validator) == *old(validator))
            &&& (owed > 0 ==> r == Ok::<Option<SessionIssuance>, ErrorCode>(Some(SessionIssuance {
                amount: owed as u64,
                commission: spec_commission(owed as u64, commission_percent) as u64,
            })) && *final(validator) == (ValidatorPda {
                last_minted: Some(now),
                ..*old(validator)
            }))
        },
{
    if !user_ata.equals(&player.reward_address) {
        return Err(ErrorCode::InvalidAtaAccount);
    }
    if !validator.address.equals(signer) {
        return Err(ErrorCode::ValidatorNotRegistered);
    }
    let old_time: i64 = match player.pending_game_time_ms {
        Option::Some(t) => t,
        Option::None => 0,
    };
    let old_time_u: u64 = old_time as u64;
    let gained: u64 = if new_time_seconds >= old_time_u {
        new_time_seconds - old_time_u
    } else {
        0
    };
    let capped: u64 = if gained <= MAX_SESSION_SECONDS {
        gained
    } else {
        MAX_SESSION_SECONDS
    };
    player.pending_game_time_ms = Some(new_time_seconds as i64);
    let minutes = capped / 60;
    proof {
        assert(minutes * coin_issuance_rate <= (MAX_SESSION_SECONDS / 60) * MAX_RATE)
            by (nonlinear_arith)
            requires
                minutes <= MAX_SESSION_SECONDS / 60,
                coin_issuance_rate <= MAX_RATE,
        ;
    }
    let amount = minutes * coin_issuance_rate;
    if amount == 0 {
        return Ok(None);
    }
    let commission = compute_commission(amount, commission_percent);
    validator.last_minted = Some(now);
    Ok(Some(SessionIssuance { amount, commission }))
}

} // verus!
