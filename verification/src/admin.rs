//! Deployment administration: initialization, ownership transfer, policy
//! updates and the one-way locks on individual policy fields. Every update is
//! owner-gated, checks its bounds before mutating anything, and on error
//! leaves the state untouched.

use vstd::prelude::*;
use crate::errors::ErrorCode;
use crate::ids::Identity;
use crate::policy::{MAX_COMMISSION_PERCENT, MAX_RATE};
use crate::records::Dapp;

verus! {

/// Creates the deployment state. Fails when the commission percentage or
/// either rate exceeds its bound, in that order. The accompanying initial
/// commission mint instruction is returned for the ledger: `Some` exactly
/// when `initial_commission_tokens` is positive.
pub fn initialize_dapp_and_mint(
    description: String,
    socials: String,
    commission_percent: u16,
    coin_issuance_rate: u64,
    validator_claim_rate: u64,
    curated_val: bool,
    initial_commission_tokens: u64,
    gatekeeper_network: Identity,
    player_limit: u32,
    owner: Identity,
    commission_ata: Identity,
    mint_pubkey: Identity,
) -> (r: Result<(Dapp, Option<u64>), ErrorCode>)
    ensures
        commission_percent > MAX_COMMISSION_PERCENT ==> r == Err::<(Dapp, Option<u64>), ErrorCode>(
            ErrorCode::CommissionTooLarge,
        ),
        commission_percent <= MAX_COMMISSION_PERCENT && coin_issuance_rate > MAX_RATE ==> r
            == Err::<(Dapp, Option<u64>), ErrorCode>(ErrorCode::IssuanceRateTooLarge),
        commission_percent <= MAX_COMMISSION_PERCENT && coin_issuance_rate <= MAX_RATE
            && validator_claim_rate > MAX_RATE ==> r == Err::<(Dapp, Option<u64>), ErrorCode>(
            ErrorCode::ClaimRateTooLarge,
        ),
        commission_percent <= MAX_COMMISSION_PERCENT && coin_issuance_rate <= MAX_RATE
            && validator_claim_rate <= MAX_RATE ==> r is Ok,
        r matches Ok(init) ==> {
            let dapp = init.0;
            &&& commission_percent <= MAX_COMMISSION_PERCENT
            &&& coin_issuance_rate <= MAX_RATE
            &&& validator_claim_rate <= MAX_RATE
            &&& dapp.wf()
            &&& dapp.player_count == 0
            &&& dapp.validator_count == 0
            &&& dapp.active_validator_count == 0
            &&& dapp.last_reset_hour is None
            &&& dapp.description == description
            &&& dapp.socials == socials
            &&& dapp.last_seed is None
            &&& dapp.last_punch_in_time is None
            &&& dapp.mint_pubkey == mint_pubkey
            &&& dapp.commission_ata == commission_ata
            &&& dapp.commission_percent == commission_percent
            &&& dapp.coin_issuance_rate == coin_issuance_rate
            &&& dapp.validator_claim_rate == validator_claim_rate
            &&& dapp.curated_val == curated_val
            &&& dapp.owner == owner
            &&& !dapp.claim_rate_lock
            &&& !dapp.coin_issuance_rate_lock
            &&& !dapp.commission_percent_lock
            &&& dapp.gatekeeper_network == gatekeeper_network
            &&& dapp.player_limit == player_limit
            &&& init.1 == (if initial_commission_tokens > 0 {
                Some(initial_commission_tokens)
            } else {
                None::<u64>
            })
        },
{
    if commission_percent > MAX_COMMISSION_PERCENT {
        return Err(ErrorCode::CommissionTooLarge);
    }
    if coin_issuance_rate > MAX_RATE {
        return Err(ErrorCode::IssuanceRateTooLarge);
    }
    if validator_claim_rate > MAX_RATE {
        return Err(ErrorCode::ClaimRateTooLarge);
    }
    let dapp = Dapp {
        player_count: 0,
        validator_count: 0,
        active_validator_count: 0,
        last_reset_hour: None,
        description,
        socials,
        last_seed: None,
        last_punch_in_time: None,
        mint_pubkey,
        commission_ata,
        commission_percent,
        coin_issuance_rate,
        validator_claim_rate,
        curated_val,
        owner,
        claim_rate_lock: false,
        coin_issuance_rate_lock: false,
        commission_percent_lock: false,
        gatekeeper_network,
        player_limit,
    };
    let initial_mint: Option<u64> = if initial_commission_tokens > 0 {
        Some(initial_commission_tokens)
    } else {
        None
    };
    Ok((dapp, initial_mint))
}

/// Hands ownership to `new_owner`; only the current owner may do so.
pub fn transfer_ownership(dapp: &mut Dapp, signer: &Identity, new_owner: Identity) -> (r: Result<
    (),
    ErrorCode,
>)
    ensures
        *signer != old(dapp).owner ==> r == Err::<(), ErrorCode>(ErrorCode::Unauthorized)
            && *final(dapp) == *old(dapp),
        *signer == old(dapp).owner ==> r == Ok::<(), ErrorCode>(()) && *final(dapp) == (Dapp {
            owner: new_owner,
            ..*old(dapp)
        }),
{
    if !signer.equals(&dapp.owner) {
        return Err(ErrorCode::Unauthorized);
    }
    dapp.owner = new_owner;
    Ok(())
}

/// Resets ownership to the all-zero identity; only the current owner may do
/// so.
pub fn relinquish_ownership(dapp: &mut Dapp, signer: &Identity) -> (r: Result<(), ErrorCode>)
    ensures
        *signer != old(dapp).owner ==> r == Err::<(), ErrorCode>(ErrorCode::Unauthorized)
            && *final(dapp) == *old(dapp),
        *signer == old(dapp).owner ==> {
            &&& r == Ok::<(), ErrorCode>(())
            &&& final(dapp).owner@ == Seq::new(32, |i: int| 0u8)
            &&& *final(dapp) == (Dapp { owner: final(dapp).owner, ..*old(dapp) })
        },
{
    if !signer.equals(&dapp.owner) {
        return Err(ErrorCode::Unauthorized);
    }
    dapp.owner = Identity::zeroed();
    Ok(())
}

/// Whether an update of the three policy fields would be accepted against the
/// current locks: a locked field is skipped (not an error), an unlocked field
/// must be within its bound.
pub open spec fn spec_commission_update_ok(dapp: Dapp, pct: u16, rate: u64, claim: u64) -> bool {
    &&& (!dapp.commission_percent_lock ==> pct <= MAX_COMMISSION_PERCENT)
    &&& (!dapp.coin_issuance_rate_lock ==> rate <= MAX_RATE)
    &&& (!dapp.claim_rate_lock ==> claim <= MAX_RATE)
}

/// The deployment state after an accepted policy update: the commission
/// destination always changes; each of the three policy fields changes only
/// if it is not locked.
pub open spec fn spec_commission_updated(
    dapp: Dapp,
    ata: Identity,
    pct: u16,
    rate: u64,
    claim: u64,
) -> Dapp {
    Dapp {
        commission_ata: ata,
        commission_percent: if dapp.commission_percent_lock { dapp.commission_percent } else { pct },
        coin_issuance_rate: if dapp.coin_issuance_rate_lock { dapp.coin_issuance_rate } else { rate },
        validator_claim_rate: if dapp.claim_rate_lock { dapp.validator_claim_rate } else { claim },
        ..dapp
    }
}

/// Updates the commission destination and the unlocked policy fields; only
/// the owner may do so, and each unlocked field must be within its bound.
/// Locked fields are skipped silently. On error nothing changes.
pub fn update_commission_info(
    dapp: &mut Dapp,
    signer: &Identity,
    new_commission_ata: Identity,
    new_commission_percent: u16,
    new_coin_issuance_rate: u64,
    new_validator_claim_rate: u64,
) -> (r: Result<(), ErrorCode>)
    requires
        old(dapp).wf(),
    ensures
        final(dapp).wf(),
        *signer != old(dapp).owner ==> r == Err::<(), ErrorCode>(ErrorCode::Unauthorized),
        *signer == old(dapp).owner && !old(dapp).commission_percent_lock
            && new_commission_percent > MAX_COMMISSION_PERCENT ==> r == Err::<(), ErrorCode>(
            ErrorCode::CommissionTooLarge,
        ),
        *signer == old(dapp).owner && (old(dapp).commission_percent_lock
            || new_commission_percent <= MAX_COMMISSION_PERCENT) && !old(
            dapp,
        ).coin_issuance_rate_lock && new_coin_issuance_rate > MAX_RATE ==> r == Err::<
            (),
            ErrorCode,
        >(ErrorCode::IssuanceRateTooLarge),
        *signer == old(dapp).owner && (old(dapp).commission_percent_lock
            || new_commission_percent <= MAX_COMMISSION_PERCENT) && (old(
            dapp,
        ).coin_issuance_rate_lock || new_coin_issuance_rate <= MAX_RATE) && !old(
            dapp,
        ).claim_rate_lock && new_validator_claim_rate > MAX_RATE ==> r == Err::<(), ErrorCode>(
            ErrorCode::ClaimRateTooLarge,
        ),
        r is Err ==> *final(dapp) == *old(dapp),
        *signer == old(dapp).owner && spec_commission_update_ok(
            *old(dapp),
            new_commission_percent,
            new_coin_issuance_rate,
            new_validator_claim_rate,
        ) ==> r == Ok::<(), ErrorCode>(()) && *final(dapp) == spec_commission_updated(
            *old(dapp),
            new_commission_ata,
            new_commission_percent,
            new_coin_issuance_rate,
            new_validator_claim_rate,
        ),
{
    if !signer.equals(&dapp.owner) {
        return Err(ErrorCode::Unauthorized);
    }
    if !dapp.commission_percent_lock && new_commission_percent > MAX_COMMISSION_PERCENT {
        return Err(ErrorCode::CommissionTooLarge);
    }
    if !dapp.coin_issuance_rate_lock && new_coin_issuance_rate > MAX_RATE {
        return Err(ErrorCode::IssuanceRateTooLarge);
    }
    if !dapp.claim_rate_lock && new_validator_claim_rate > MAX_RATE {
        return Err(ErrorCode::ClaimRateTooLarge);
    }
    dapp.commission_ata = new_commission_ata;
    if !dapp.commission_percent_lock {
        dapp.commission_percent = new_commission_percent;
    }
    if !dapp.coin_issuance_rate_lock {
        dapp.coin_issuance_rate = new_coin_issuance_rate;
    }
    if !dapp.claim_rate_lock {
        dapp.validator_claim_rate = new_validator_claim_rate;
    }
    Ok(())
}

/// Sets the one-way lock named by `field_name`: `lock_claim`,
/// `lock_coin_rate` or `lock_commission_pct`. Only the owner may lock; an
/// unknown name is rejected and nothing changes.
pub fn lock_field(dapp: &mut Dapp, signer: &Identity, field_name: &String) -> (r: Result<
    (),
    ErrorCode,
>)
    ensures
        *signer != old(dapp).owner ==> r == Err::<(), ErrorCode>(ErrorCode::Unauthorized),
        *signer == old(dapp).owner ==> {
            if field_name@ == "lock_claim"@ {
                r == Ok::<(), ErrorCode>(()) && *final(dapp) == (Dapp {
                    claim_rate_lock: true,
                    ..*old(dapp)
                })
            } else if field_name@ == "lock_coin_rate"@ {
                r == Ok::<(), ErrorCode>(()) && *final(dapp) == (Dapp {
                    coin_issuance_rate_lock: true,
                    ..*old(dapp)
                })
            } else if field_name@ == "lock_commission_pct"@ {
                r == Ok::<(), ErrorCode>(()) && *final(dapp) == (Dapp {
                    commission_percent_lock: true,
                    ..*old(dapp)
                })
            } else {
                r == Err::<(), ErrorCode>(ErrorCode::InvalidLockString)
            }
        },
        r is Err ==> *final(dapp) == *old(dapp),
{
    if !signer.equals(&dapp.owner) {
        return Err(ErrorCode::Unauthorized);
    }
    let lock_claim: String = "lock_claim".to_owned();
    let lock_coin_rate: String = "lock_coin_rate".to_owned();
    let lock_commission_pct: String = "lock_commission_pct".to_owned();
    if *field_name == lock_claim {
        dapp.claim_rate_lock = true;
        Ok(())
    } else if *field_name == lock_coin_rate {
        dapp.coin_issuance_rate_lock = true;
        Ok(())
    } else if *field_name == lock_commission_pct {
        dapp.commission_percent_lock = true;
        Ok(())
    } else {
        Err(ErrorCode::InvalidLockString)
    }
}

} // verus!
