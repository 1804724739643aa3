//! Time-gated issuance throttling. Beneficiary issuance pays for the whole
//! minutes elapsed since the last issuance outcome, but only within a fixed
//! window; outside it the attempt is consumed by stamping the cooldown.
//! Validators have a separate self-claim path: minutes since their last
//! claim, capped, and only while their last participation in a successful
//! issuance is recent.

use vstd::prelude::*;
use crate::errors::ErrorCode;
use crate::ids::Identity;
use crate::policy::{
    CLAIM_CAP_MINUTES, CLAIM_ELIGIBILITY_SECONDS, MAX_HOUR_TIMESTAMP, MAX_RATE,
    MAX_WINDOW_MINUTES, MIN_WINDOW_MINUTES,
};
use crate::records::ValidatorPda;

verus! {

/// Whole minutes from `last` to `now`; zero when `now` precedes `last`.
pub open spec fn spec_elapsed_minutes(now: int, last: int) -> int {
    if now >= last {
        (now - last) / 60
    } else {
        0
    }
}

/// The stored value of an optional timestamp: unset reads as zero (the far
/// past), so a first-ever attempt sees a large elapsed time.
pub open spec fn spec_time_or_zero(t: Option<i64>) -> i64 {
    if t is Some {
        t->Some_0
    } else {
        0
    }
}

/// Computes the whole minutes elapsed from `last` to `now`.
pub fn elapsed_minutes(now: i64, last: i64) -> (r: u64)
    requires
        0 <= now <= MAX_HOUR_TIMESTAMP,
        last >= 0,
    ensures
        r == spec_elapsed_minutes(now as int, last as int),
{
    if now >= last {
        ((now - last) as u64) / 60
    } else {
        0
    }
}

/// Whether an elapsed-minute count lies in the issuance window.
pub open spec fn spec_in_window(minutes: int) -> bool {
    MIN_WINDOW_MINUTES <= minutes <= MAX_WINDOW_MINUTES
}

/// The amount issued for `minutes` eligible minutes at `rate` tokens per
/// minute.
pub fn issuance_amount(minutes: u64, rate: u64) -> (amount: u64)
    requires
        minutes <= MAX_WINDOW_MINUTES,
        rate <= MAX_RATE,
    ensures
        amount == minutes * rate,
{
    proof {
        assert(minutes * rate <= MAX_WINDOW_MINUTES * MAX_RATE) by (nonlinear_arith)
            requires
                minutes <= MAX_WINDOW_MINUTES,
                rate <= MAX_RATE,
        ;
    }
    minutes * rate
}

/// What a validator self-claim pays at time `now`: `None` when the validator
/// is ineligible (its last issuance participation is older than the
/// eligibility horizon) or when no whole minute has accrued; otherwise the
/// capped minutes since the last claim times the claim rate.
pub open spec fn spec_claim_amount(v: ValidatorPda, claim_rate: u64, now: int) -> Option<u64> {
    let minted_age = now - spec_time_or_zero(v.last_minted);
    if minted_age > CLAIM_ELIGIBILITY_SECONDS {
        None
    } else {
        let minutes = spec_elapsed_minutes(now, spec_time_or_zero(v.last_claimed) as int);
        let capped = if minutes <= CLAIM_CAP_MINUTES { minutes } else { CLAIM_CAP_MINUTES as int };
        if capped == 0 || capped * claim_rate == 0 {
            None
        } else {
            Some((capped * claim_rate) as u64)
        }
    }
}

/// A validator claims its own accrued reward: eligible only while its last
/// participation in a successful issuance is within the eligibility horizon,
/// paying for the whole minutes since its last claim, capped. A successful
/// claim stamps `last_claimed` (and leaves `last_minted` alone); an
/// ineligible or empty claim changes nothing.
pub fn claim_validator_reward(
    validator: &mut ValidatorPda,
    signer: &Identity,
    claim_rate: u64,
    now: i64,
    gateway_ok: bool,
) -> (r: Result<Option<u64>, ErrorCode>)
    requires
        old(validator).wf(),
        0 <= now <= MAX_HOUR_TIMESTAMP,
        claim_rate <= MAX_RATE,
    ensures
        final(validator).wf(),
        old(validator).address != *signer ==> r == Err::<Option<u64>, ErrorCode>(
            ErrorCode::ValidatorNotRegistered,
        ),
        old(validator).address == *signer && !gateway_ok ==> r == Err::<Option<u64>, ErrorCode>(
            ErrorCode::GatewayVerificationFailed,
        ),
        r is Err ==> *final(validator) == *old(validator),
        old(validator).address == *signer && gateway_ok ==> {
            let paid = spec_claim_amount(*old(validator), claim_rate, now as int);
            &&& r == Ok::<Option<u64>, ErrorCode>(paid)
            &&& (paid is Some ==> *final(validator) == (ValidatorPda {
                last_claimed: Some(now),
                ..*old(validator)
            }))
            &&& (paid is None ==> *final(validator) == *old(validator))
        },
{
    if !validator.address.equals(signer) {
        return Err(ErrorCode::ValidatorNotRegistered);
    }
    if !gateway_ok {
        return Err(ErrorCode::GatewayVerificationFailed);
    }
    let last_minted: i64 = match validator.last_minted {
        Option::Some(t) => t,
        Option::None => 0,
    };
    if now - last_minted > CLAIM_ELIGIBILITY_SECONDS {
        return Ok(None);
    }
    let last_claimed: i64 = match validator.last_claimed {
        Option::Some(t) => t,
        Option::None => 0,
    };
    let minutes = elapsed_minutes(now, last_claimed);
    let capped: u64 = if minutes <= CLAIM_CAP_MINUTES {
        minutes
    } else {
        CLAIM_CAP_MINUTES
    };
    if capped == 0 {
        return Ok(None);
    }
    proof {
        assert(capped * claim_rate <= CLAIM_CAP_MINUTES * MAX_RATE) by (nonlinear_arith)
            requires
                capped <= CLAIM_CAP_MINUTES,
                claim_rate <= MAX_RATE,
        ;
    }
    let amount = capped * claim_rate;
    if amount == 0 {
        return Ok(None);
    }
    validator.last_claimed = Some(now);
    Ok(Some(amount))
}

} // verus!
