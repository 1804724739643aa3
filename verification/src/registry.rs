//! Registration and per-record bookkeeping: creating beneficiary and
//! validator records, wallet registration marks, name and reward-address
//! cooldowns, and claim requests. Record accounts themselves are created and
//! stored by the host; these functions decide their contents.

use vstd::prelude::*;
use crate::errors::ErrorCode;
use crate::ids::Identity;
use crate::policy::{
    MAX_HOUR_TIMESTAMP, MAX_NAME_LEN, NAME_CHANGE_COOLDOWN_SECONDS,
    REWARD_CHANGE_COOLDOWN_SECONDS, STALE_CLAIM_SECONDS,
};
use crate::records::{Dapp, PlayerNamePda, PlayerPda, ValidatorPda, WalletPda};

verus! {

/// The fields of a freshly registered beneficiary record.
pub open spec fn spec_fresh_player(
    name: Seq<u8>,
    authority: Identity,
    reward_address: Identity,
    p: PlayerPda,
) -> bool {
    &&& p.name@ == name
    &&& p.authority == authority
    &&& p.reward_address == reward_address
    &&& p.last_name_change is None
    &&& p.last_reward_change is None
    &&& p.partial_validators@ == Seq::<Identity>::empty()
    &&& p.last_minted is None
    &&& p.pending_claim_ts == Some(0i64)
    &&& p.pending_game_time_ms == Some(0i64)
    &&& !p.pending_paid
    &&& p.last_claim_ts == Some(0i64)
}

/// Registers a beneficiary under a fresh unique name. Fails (in this order)
/// when the beneficiary limit is reached, when the identity gateway rejected
/// the caller, when the caller's wallet is not registered, or when the name
/// is too long. On success the beneficiary counter grows by one and the new
/// player and name records are returned; the name record starts inactive, as
/// the host store created it.
pub fn register_player_pda(
    dapp: &mut Dapp,
    name: Vec<u8>,
    authority: Identity,
    user_ata: Identity,
    player_key: Identity,
    wallet_registered: bool,
    gateway_ok: bool,
) -> (r: Result<(PlayerPda, PlayerNamePda), ErrorCode>)
    requires
        old(dapp).wf(),
        old(dapp).player_count < u32::MAX,
    ensures
        final(dapp).wf(),
        old(dapp).player_limit != 0 && old(dapp).player_count >= old(dapp).player_limit ==> r
            is Err && r->Err_0 == ErrorCode::PlayerLimitReached,
        (old(dapp).player_limit == 0 || old(dapp).player_count < old(dapp).player_limit)
            && !gateway_ok ==> r is Err && r->Err_0 == ErrorCode::GatewayVerificationFailed,
        (old(dapp).player_limit == 0 || old(dapp).player_count < old(dapp).player_limit)
            && gateway_ok && !wallet_registered ==> r is Err && r->Err_0
            == ErrorCode::Unauthorized,
        (old(dapp).player_limit == 0 || old(dapp).player_count < old(dapp).player_limit)
            && gateway_ok && wallet_registered && name@.len() > MAX_NAME_LEN ==> r is Err
            && r->Err_0 == ErrorCode::InvalidNameLength,
        r is Err ==> *final(dapp) == *old(dapp),
        (old(dapp).player_limit == 0 || old(dapp).player_count < old(dapp).player_limit)
            && gateway_ok && wallet_registered && name@.len() <= MAX_NAME_LEN ==> r is Ok,
        r matches Ok(created) ==> {
            &&& (old(dapp).player_limit == 0 || old(dapp).player_count < old(dapp).player_limit)
            &&& gateway_ok
            &&& wallet_registered
            &&& name@.len() <= MAX_NAME_LEN
            &&& *final(dapp) == (Dapp {
                player_count: (old(dapp).player_count + 1) as u32,
                ..*old(dapp)
            })
            &&& spec_fresh_player(name@, authority, user_ata, created.0)
            &&& created.0.wf()
            &&& created.1.name@ == name@
            &&& created.1.player_pda == player_key
            &&& !created.1.active
        },
{
    if dapp.player_limit != 0 && dapp.player_count >= dapp.player_limit {
        return Err(ErrorCode::PlayerLimitReached);
    }
    if !gateway_ok {
        return Err(ErrorCode::GatewayVerificationFailed);
    }
    if !wallet_registered {
        return Err(ErrorCode::Unauthorized);
    }
    if name.len() > MAX_NAME_LEN {
        return Err(ErrorCode::InvalidNameLength);
    }
    let name_record = PlayerNamePda { name: clone_bytes(&name), player_pda: player_key, active: false };
    let player = PlayerPda {
        name,
        authority,
        reward_address: user_ata,
        last_name_change: None,
        last_reward_change: None,
        partial_validators: Vec::new(),
        last_minted: None,
        pending_claim_ts: Some(0),
        pending_game_time_ms: Some(0),
        pending_paid: false,
        last_claim_ts: Some(0),
    };
    dapp.player_count = dapp.player_count + 1;
    Ok((player, name_record))
}

/// Copies a byte vector.
fn clone_bytes(v: &Vec<u8>) -> (r: Vec<u8>)
    ensures
        r@ == v@,
{
    let mut out: Vec<u8> = Vec::new();
    let mut i: usize = 0;
    while i < v.len()
        invariant
            i <= v@.len(),
            out@ == v@.take(i as int),
        decreases v@.len() - i,
    {
        proof {
            assert(v@.take(i as int).push(v@[i as int]) =~= v@.take(i + 1));
        }
        out.push(v[i]);
        i = i + 1;
    }
    proof {
        assert(v@.take(v@.len() as int) =~= v@);
    }
    out
}

/// Registers a beneficiary on a user's behalf, by a validator of a curated
/// deployment. Fails when the deployment is not curated or when the user's
/// wallet is not registered; the beneficiary limit and name length are not
/// checked on this path, and the name record starts active.
pub fn register_player_pda_by_validator(
    dapp: &mut Dapp,
    name: Vec<u8>,
    user_authority: Identity,
    user_ata: Identity,
    player_key: Identity,
    wallet_registered: bool,
) -> (r: Result<(PlayerPda, PlayerNamePda), ErrorCode>)
    requires
        old(dapp).wf(),
        old(dapp).player_count < u32::MAX,
    ensures
        final(dapp).wf(),
        !old(dapp).curated_val ==> r is Err && r->Err_0 == ErrorCode::DappIsNotCurated,
        old(dapp).curated_val && !wallet_registered ==> r is Err && r->Err_0
            == ErrorCode::Unauthorized,
        r is Err ==> *final(dapp) == *old(dapp),
        old(dapp).curated_val && wallet_registered ==> r is Ok,
        r matches Ok(created) ==> {
            &&& old(dapp).curated_val
            &&& wallet_registered
            &&& *final(dapp) == (Dapp {
                player_count: (old(dapp).player_count + 1) as u32,
                ..*old(dapp)
            })
            &&& spec_fresh_player(name@, user_authority, user_ata, created.0)
            &&& created.0.wf()
            &&& created.1.name@ == name@
            &&& created.1.player_pda == player_key
            &&& created.1.active
        },
{
    if !dapp.curated_val {
        return Err(ErrorCode::DappIsNotCurated);
    }
    if !wallet_registered {
        return Err(ErrorCode::Unauthorized);
    }
    let name_record = PlayerNamePda { name: clone_bytes(&name), player_pda: player_key, active: true };
    let player = PlayerPda {
        name,
        authority: user_authority,
        reward_address: user_ata,
        last_name_change: None,
        last_reward_change: None,
        partial_validators: Vec::new(),
        last_minted: None,
        pending_claim_ts: Some(0),
        pending_game_time_ms: Some(0),
        pending_paid: false,
        last_claim_ts: Some(0),
    };
    dapp.player_count = dapp.player_count + 1;
    Ok((player, name_record))
}

/// Open validator registration: any user may register itself as a validator,
/// stamped active at `now`; the validator counter grows by one.
pub fn register_validator_pda(dapp: &mut Dapp, user: Identity, now: i64) -> (r: ValidatorPda)
    requires
        old(dapp).wf(),
        old(dapp).validator_count < u32::MAX,
        0 <= now <= MAX_HOUR_TIMESTAMP,
    ensures
        final(dapp).wf(),
        *final(dapp) == (Dapp {
            validator_count: (old(dapp).validator_count + 1) as u32,
            ..*old(dapp)
        }),
        r == (ValidatorPda {
            address: user,
            last_activity: now,
            last_minted: None,
            last_claimed: None,
        }),
        r.wf(),
{
    dapp.validator_count = dapp.validator_count + 1;
    ValidatorPda { address: user, last_activity: now, last_minted: None, last_claimed: None }
}

/// Adds a validator to a curated deployment; only the owner may do so. The
/// new record starts with no activity.
pub fn register_validator_curated(
    dapp: &mut Dapp,
    signer: &Identity,
    validator_to_add: Identity,
) -> (r: Result<ValidatorPda, ErrorCode>)
    requires
        old(dapp).wf(),
        old(dapp).validator_count < u32::MAX,
    ensures
        final(dapp).wf(),
        *signer != old(dapp).owner ==> r is Err && r->Err_0 == ErrorCode::Unauthorized,
        *signer == old(dapp).owner && !old(dapp).curated_val ==> r is Err && r->Err_0
            == ErrorCode::DappIsNotCurated,
        r is Err ==> *final(dapp) == *old(dapp),
        *signer == old(dapp).owner && old(dapp).curated_val ==> r is Ok,
        r matches Ok(v) ==> {
            &&& *signer == old(dapp).owner
            &&& old(dapp).curated_val
            &&& *final(dapp) == (Dapp {
                validator_count: (old(dapp).validator_count + 1) as u32,
                ..*old(dapp)
            })
            &&& v == (ValidatorPda {
                address: validator_to_add,
                last_activity: 0,
                last_minted: None,
                last_claimed: None,
            })
            &&& v.wf()
        },
{
    if !signer.equals(&dapp.owner) {
        return Err(ErrorCode::Unauthorized);
    }
    if !dapp.curated_val {
        return Err(ErrorCode::DappIsNotCurated);
    }
    let validator = ValidatorPda {
        address: validator_to_add,
        last_activity: 0,
        last_minted: None,
        last_claimed: None,
    };
    dapp.validator_count = dapp.validator_count + 1;
    Ok(validator)
}

/// Marks a wallet as registered while the host creates the user's token
/// account; registering an already registered wallet is a no-op. Fails only
/// when the identity gateway rejected the caller.
pub fn create_user_ata_if_needed(wallet: &mut WalletPda, user: Identity, gateway_ok: bool) -> (r:
    Result<(), ErrorCode>)
    ensures
        !gateway_ok ==> r == Err::<(), ErrorCode>(ErrorCode::GatewayVerificationFailed)
            && *final(wallet) == *old(wallet),
        gateway_ok ==> r == Ok::<(), ErrorCode>(()) && *final(wallet) == (if old(
            wallet,
        ).is_registered {
            *old(wallet)
        } else {
            WalletPda { wallet: user, is_registered: true }
        }),
{
    if !gateway_ok {
        return Err(ErrorCode::GatewayVerificationFailed);
    }
    if !wallet.is_registered {
        wallet.wallet = user;
        wallet.is_registered = true;
    }
    Ok(())
}

/// Renames a beneficiary: gated by the identity gateway, the record's
/// authority, a one-day cooldown, and the old name record still being active.
/// On success the old name is released, a fresh active name record is
/// returned, and the cooldown is stamped. An already-inactive old name record
/// is reported with the same cooldown error.
pub fn update_player_name_cooldown(
    player: &mut PlayerPda,
    old_name: &mut PlayerNamePda,
    user: &Identity,
    new_name: Vec<u8>,
    player_key: Identity,
    now: i64,
    gateway_ok: bool,
) -> (r: Result<PlayerNamePda, ErrorCode>)
    requires
        old(player).wf(),
        0 <= now <= MAX_HOUR_TIMESTAMP,
    ensures
        final(player).wf(),
        !gateway_ok ==> r is Err && r->Err_0 == ErrorCode::GatewayVerificationFailed,
        gateway_ok && old(player).authority != *user ==> r is Err && r->Err_0
            == ErrorCode::Unauthorized,
        gateway_ok && old(player).authority == *user && (old(
            player,
        ).last_name_change matches Some(t) && now - t < NAME_CHANGE_COOLDOWN_SECONDS) ==> r is Err
            && r->Err_0 == ErrorCode::NameChangeCooldown,
        gateway_ok && old(player).authority == *user && (old(player).last_name_change is None
            || now - old(player).last_name_change->Some_0 >= NAME_CHANGE_COOLDOWN_SECONDS) && !old(
            old_name,
        ).active ==> r is Err && r->Err_0 == ErrorCode::NameChangeCooldown,
        r is Err ==> *final(player) == *old(player) && *final(old_name) == *old(old_name),
        gateway_ok && old(player).authority == *user && (old(player).last_name_change is None
            || now - old(player).last_name_change->Some_0 >= NAME_CHANGE_COOLDOWN_SECONDS) && old(
            old_name,
        ).active ==> r is Ok,
        r matches Ok(fresh) ==> {
            &&& gateway_ok
            &&& old(player).authority == *user
            &&& (old(player).last_name_change is None || now - old(
                player,
            ).last_name_change->Some_0 >= NAME_CHANGE_COOLDOWN_SECONDS)
            &&& old(old_name).active
            &&& *final(old_name) == (PlayerNamePda { active: false, ..*old(old_name) })
            &&& *final(player) == (PlayerPda {
                name: final(player).name,
                last_name_change: Some(now),
                ..*old(player)
            })
            &&& final(player).name@ == new_name@
            &&& fresh.name@ == new_name@
            &&& fresh.player_pda == player_key
            &&& fresh.active
        },
{
    if !gateway_ok {
        return Err(ErrorCode::GatewayVerificationFailed);
    }
    if !player.authority.equals(user) {
        return Err(ErrorCode::Unauthorized);
    }
    match player.last_name_change {
        Option::Some(t) => {
            if now - t < NAME_CHANGE_COOLDOWN_SECONDS {
                return Err(ErrorCode::NameChangeCooldown);
            }
        },
        Option::None => {},
    }
    if !old_name.active {
        return Err(ErrorCode::NameChangeCooldown);
    }
    old_name.active = false;
    let fresh = PlayerNamePda { name: clone_bytes(&new_name), player_pda: player_key, active: true };
    player.name = new_name;
    player.last_name_change = Some(now);
    Ok(fresh)
}

/// Redirects a beneficiary's rewards: gated by the record's authority and a
/// one-day cooldown; stamps the cooldown on success.
pub fn update_player_reward_cooldown(
    player: &mut PlayerPda,
    user: &Identity,
    new_reward: Identity,
    now: i64,
) -> (r: Result<(), ErrorCode>)
    requires
        old(player).wf(),
        0 <= now <= MAX_HOUR_TIMESTAMP,
    ensures
        final(player).wf(),
        old(player).authority != *user ==> r == Err::<(), ErrorCode>(ErrorCode::Unauthorized),
        old(player).authority == *user && (old(player).last_reward_change matches Some(t) && now - t
            < REWARD_CHANGE_COOLDOWN_SECONDS) ==> r == Err::<(), ErrorCode>(
            ErrorCode::RewardChangeCooldown,
        ),
        r is Err ==> *final(player) == *old(player),
        old(player).authority == *user && (old(player).last_reward_change is None || now - old(
            player,
        ).last_reward_change->Some_0 >= REWARD_CHANGE_COOLDOWN_SECONDS) ==> r == Ok::<
            (),
            ErrorCode,
        >(()) && *final(player) == (PlayerPda {
            reward_address: new_reward,
            last_reward_change: Some(now),
            ..*old(player)
        }),
{
    if !player.authority.equals(user) {
        return Err(ErrorCode::Unauthorized);
    }
    match player.last_reward_change {
        Option::Some(t) => {
            if now - t < REWARD_CHANGE_COOLDOWN_SECONDS {
                return Err(ErrorCode::RewardChangeCooldown);
            }
        },
        Option::None => {},
    }
    player.reward_address = new_reward;
    player.last_reward_change = Some(now);
    Ok(())
}

/// A beneficiary asks to claim: gated by the record's authority and the
/// identity gateway. A pending claim that is still unpaid but older than the
/// staleness horizon is marked paid and restamped, so the holder can request
/// again; otherwise nothing changes.
pub fn request_claim(player: &mut PlayerPda, user: &Identity, now: i64, gateway_ok: bool) -> (r:
    Result<(), ErrorCode>)
    requires
        old(player).wf(),
        0 <= now <= MAX_HOUR_TIMESTAMP,
    ensures
        final(player).wf(),
        old(player).authority != *user ==> r == Err::<(), ErrorCode>(ErrorCode::Unauthorized),
        old(player).authority == *user && !gateway_ok ==> r == Err::<(), ErrorCode>(
            ErrorCode::GatewayVerificationFailed,
        ),
        r is Err ==> *final(player) == *old(player),
        old(player).authority == *user && gateway_ok ==> {
            &&& r == Ok::<(), ErrorCode>(())
            &&& *final(player) == (if old(player).pending_claim_ts matches Some(ts) && !old(
                player,
            ).pending_paid && now - ts > STALE_CLAIM_SECONDS {
                PlayerPda { pending_paid: true, pending_claim_ts: Some(now), ..*old(player) }
            } else {
                *old(player)
            })
        },
{
    if !player.authority.equals(user) {
        return Err(ErrorCode::Unauthorized);
    }
    if !gateway_ok {
        return Err(ErrorCode::GatewayVerificationFailed);
    }
    match player.pending_claim_ts {
        Option::Some(ts) => {
            if !player.pending_paid && now - ts > STALE_CLAIM_SECONDS {
                player.pending_paid = true;
                player.pending_claim_ts = Some(now);
            }
        },
        Option::None => {},
    }
    Ok(())
}

} // verus!
