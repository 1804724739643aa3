use fancoin::errors::ErrorCode;
use fancoin::ids::Identity;
use fancoin::records::{Dapp, PlayerNamePda, PlayerPda, WalletPda};
use fancoin::registry::{
    create_user_ata_if_needed, register_player_pda, register_player_pda_by_validator,
    register_validator_curated, register_validator_pda, request_claim, update_player_name_cooldown,
    update_player_reward_cooldown,
};

fn key(tag: u8) -> Identity {
    let mut bytes = [0u8; 32];
    bytes[3] = tag;
    Identity { bytes }
}

fn base_dapp() -> Dapp {
    Dapp {
        player_count: 0,
        validator_count: 0,
        active_validator_count: 0,
        last_reset_hour: None,
        description: String::new(),
        socials: String::new(),
        last_seed: None,
        last_punch_in_time: None,
        mint_pubkey: key(50),
        commission_ata: key(51),
        commission_percent: 0,
        coin_issuance_rate: 1,
        validator_claim_rate: 1,
        curated_val: false,
        owner: key(52),
        claim_rate_lock: false,
        coin_issuance_rate_lock: false,
        commission_percent_lock: false,
        gatekeeper_network: key(53),
        player_limit: 0,
    }
}

#[test]
fn registration_creates_fresh_records() {
    let mut dapp = base_dapp();
    let (player, name_rec) = register_player_pda(
        &mut dapp,
        b"alice".to_vec(),
        key(1),
        key(2),
        key(3),
        true,
        true,
    )
    .expect("registration should succeed");
    assert_eq!(dapp.player_count, 1);
    assert_eq!(player.name, b"alice".to_vec());
    assert_eq!(player.authority, key(1));
    assert_eq!(player.reward_address, key(2));
    assert!(player.partial_validators.is_empty());
    assert_eq!(player.last_minted, None);
    assert_eq!(player.pending_claim_ts, Some(0));
    assert_eq!(player.pending_game_time_ms, Some(0));
    assert!(!player.pending_paid);
    assert_eq!(name_rec.name, b"alice".to_vec());
    assert_eq!(name_rec.player_pda, key(3));
    assert!(!name_rec.active);
}

#[test]
fn registration_checks_limit_gateway_wallet_and_name() {
    let mut dapp = base_dapp();
    dapp.player_limit = 1;
    dapp.player_count = 1;
    let r = register_player_pda(&mut dapp, b"a".to_vec(), key(1), key(2), key(3), true, true);
    assert!(matches!(r, Err(ErrorCode::PlayerLimitReached)));
    dapp.player_limit = 0;
    let r = register_player_pda(&mut dapp, b"a".to_vec(), key(1), key(2), key(3), true, false);
    assert!(matches!(r, Err(ErrorCode::GatewayVerificationFailed)));
    let r = register_player_pda(&mut dapp, b"a".to_vec(), key(1), key(2), key(3), false, true);
    assert!(matches!(r, Err(ErrorCode::Unauthorized)));
    let long = vec![b'x'; 31];
    let r = register_player_pda(&mut dapp, long, key(1), key(2), key(3), true, true);
    assert!(matches!(r, Err(ErrorCode::InvalidNameLength)));
    assert_eq!(dapp.player_count, 1);
}

#[test]
fn curated_registration_is_validator_only_path() {
    let mut dapp = base_dapp();
    let r = register_player_pda_by_validator(&mut dapp, b"bob".to_vec(), key(1), key(2), key(3), true);
    assert!(matches!(r, Err(ErrorCode::DappIsNotCurated)));
    dapp.curated_val = true;
    let r = register_player_pda_by_validator(&mut dapp, b"bob".to_vec(), key(1), key(2), key(3), false);
    assert!(matches!(r, Err(ErrorCode::Unauthorized)));
    let (player, name_rec) =
        register_player_pda_by_validator(&mut dapp, b"bob".to_vec(), key(1), key(2), key(3), true)
            .expect("curated registration should succeed");
    assert_eq!(dapp.player_count, 1);
    assert_eq!(player.authority, key(1));
    assert!(name_rec.active);
}

#[test]
fn open_validator_registration_stamps_activity() {
    let mut dapp = base_dapp();
    let v = register_validator_pda(&mut dapp, key(40), 7200);
    assert_eq!(dapp.validator_count, 1);
    assert_eq!(v.address, key(40));
    assert_eq!(v.last_activity, 7200);
    assert_eq!(v.last_minted, None);
}

#[test]
fn curated_validator_registration_is_owner_gated() {
    let mut dapp = base_dapp();
    dapp.curated_val = true;
    let owner = dapp.owner;
    let r = register_validator_curated(&mut dapp, &key(1), key(60));
    assert!(matches!(r, Err(ErrorCode::Unauthorized)));
    let v = register_validator_curated(&mut dapp, &owner, key(60)).expect("owner may add");
    assert_eq!(dapp.validator_count, 1);
    assert_eq!(v.address, key(60));
    assert_eq!(v.last_activity, 0);
    assert_eq!(v.last_minted, None);
    assert_eq!(v.last_claimed, None);
    dapp.curated_val = false;
    let r = register_validator_curated(&mut dapp, &owner, key(61));
    assert!(matches!(r, Err(ErrorCode::DappIsNotCurated)));
}

#[test]
fn wallet_registration_is_idempotent() {
    let mut wallet = WalletPda { wallet: key(0), is_registered: false };
    let r = create_user_ata_if_needed(&mut wallet, key(1), false);
    assert!(matches!(r, Err(ErrorCode::GatewayVerificationFailed)));
    assert!(!wallet.is_registered);
    create_user_ata_if_needed(&mut wallet, key(1), true).expect("gateway passed");
    assert!(wallet.is_registered);
    assert_eq!(wallet.wallet, key(1));
    create_user_ata_if_needed(&mut wallet, key(2), true).expect("already registered");
    assert_eq!(wallet.wallet, key(1));
}

fn sample_player(authority: Identity) -> PlayerPda {
    PlayerPda {
        name: b"carol".to_vec(),
        authority,
        reward_address: key(30),
        last_name_change: None,
        last_reward_change: None,
        partial_validators: Vec::new(),
        last_minted: None,
        pending_claim_ts: Some(0),
        pending_game_time_ms: Some(0),
        pending_paid: false,
        last_claim_ts: Some(0),
    }
}

#[test]
fn name_change_honours_cooldown_and_releases_old_name() {
    let user = key(1);
    let mut player = sample_player(user);
    let mut old_name = PlayerNamePda { name: b"carol".to_vec(), player_pda: key(3), active: true };
    let day: i64 = 24 * 3600;
    let r = update_player_name_cooldown(
        &mut player, &mut old_name, &user, b"carla".to_vec(), key(3), day, false,
    );
    assert!(matches!(r, Err(ErrorCode::GatewayVerificationFailed)));
    let r = update_player_name_cooldown(
        &mut player, &mut old_name, &key(9), b"carla".to_vec(), key(3), day, true,
    );
    assert!(matches!(r, Err(ErrorCode::Unauthorized)));
    let fresh = update_player_name_cooldown(
        &mut player, &mut old_name, &user, b"carla".to_vec(), key(3), day, true,
    )
    .expect("first rename should succeed");
    assert_eq!(player.name, b"carla".to_vec());
    assert_eq!(player.last_name_change, Some(day));
    assert!(!old_name.active);
    assert!(fresh.active);
    assert_eq!(fresh.name, b"carla".to_vec());
    // renaming again within a day hits the cooldown
    let mut newer = fresh;
    let r = update_player_name_cooldown(
        &mut player, &mut newer, &user, b"carole".to_vec(), key(3), day + 100, true,
    );
    assert!(matches!(r, Err(ErrorCode::NameChangeCooldown)));
    // an inactive old name record reuses the same error
    let mut inactive = PlayerNamePda { name: b"carla".to_vec(), player_pda: key(3), active: false };
    let r = update_player_name_cooldown(
        &mut player, &mut inactive, &user, b"carole".to_vec(), key(3), 3 * day, true,
    );
    assert!(matches!(r, Err(ErrorCode::NameChangeCooldown)));
}

#[test]
fn reward_change_honours_cooldown() {
    let user = key(1);
    let mut player = sample_player(user);
    let day: i64 = 24 * 3600;
    let r = update_player_reward_cooldown(&mut player, &key(9), key(31), day);
    assert!(matches!(r, Err(ErrorCode::Unauthorized)));
    update_player_reward_cooldown(&mut player, &user, key(31), day).expect("first change");
    assert_eq!(player.reward_address, key(31));
    assert_eq!(player.last_reward_change, Some(day));
    let r = update_player_reward_cooldown(&mut player, &user, key(32), day + 5);
    assert!(matches!(r, Err(ErrorCode::RewardChangeCooldown)));
    update_player_reward_cooldown(&mut player, &user, key(32), 2 * day).expect("cooldown over");
    assert_eq!(player.reward_address, key(32));
}

#[test]
fn stale_pending_claim_is_marked_paid() {
    let user = key(1);
    let mut player = sample_player(user);
    player.pending_claim_ts = Some(1000);
    let r = request_claim(&mut player, &key(9), 2000, true);
    assert!(matches!(r, Err(ErrorCode::Unauthorized)));
    let r = request_claim(&mut player, &user, 2000, false);
    assert!(matches!(r, Err(ErrorCode::GatewayVerificationFailed)));
    // recent pending claim: nothing changes
    request_claim(&mut player, &user, 2000, true).expect("request accepted");
    assert!(!player.pending_paid);
    assert_eq!(player.pending_claim_ts, Some(1000));
    // one second past the staleness horizon: marked paid and restamped
    let stale_at: i64 = 1000 + (5 * 3600 + 59 * 60) + 1;
    request_claim(&mut player, &user, stale_at, true).expect("request accepted");
    assert!(player.pending_paid);
    assert_eq!(player.pending_claim_ts, Some(stale_at));
}
