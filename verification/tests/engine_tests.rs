use fancoin::engine::{
    punch_in, process_player, submit_minting_list, validate_player_pubg_time_slim, BatchGate,
    MintOutcome, SubmitOutcome,
};
use fancoin::errors::ErrorCode;
use fancoin::ids::Identity;
use fancoin::quorum::{approve_player_minting, ApprovalStatus};
use fancoin::records::{Dapp, PlayerPda, ValidatorPda};

fn ident(tag: u8) -> Identity {
    let mut bytes = [0u8; 32];
    bytes[0] = tag;
    Identity { bytes }
}

fn test_dapp() -> Dapp {
    Dapp {
        player_count: 1,
        validator_count: 1,
        active_validator_count: 0,
        last_reset_hour: None,
        description: String::new(),
        socials: String::new(),
        last_seed: None,
        last_punch_in_time: None,
        mint_pubkey: ident(200),
        commission_ata: ident(201),
        commission_percent: 20,
        coin_issuance_rate: 2_833_333,
        validator_claim_rate: 28_570,
        curated_val: true,
        owner: ident(202),
        claim_rate_lock: false,
        coin_issuance_rate_lock: false,
        commission_percent_lock: false,
        gatekeeper_network: ident(203),
        player_limit: 0,
    }
}

fn test_validator(tag: u8) -> ValidatorPda {
    ValidatorPda { address: ident(tag), last_activity: 0, last_minted: None, last_claimed: None }
}

fn test_player(last_minted: Option<i64>) -> PlayerPda {
    PlayerPda {
        name: b"alice".to_vec(),
        authority: ident(100),
        reward_address: ident(101),
        last_name_change: None,
        last_reward_change: None,
        partial_validators: Vec::new(),
        last_minted,
        pending_claim_ts: Some(0),
        pending_game_time_ms: Some(0),
        pending_paid: false,
        last_claim_ts: Some(0),
    }
}

#[test]
fn punch_in_sets_seed_and_counts_validator() {
    let mut dapp = test_dapp();
    let mut val = test_validator(1);
    let now: i64 = 3600 * 1000 + 420;
    punch_in(&mut dapp, &mut val, 5, now);
    assert!(dapp.last_seed.is_some());
    assert_eq!(dapp.last_punch_in_time, Some(now));
    assert_eq!(dapp.last_reset_hour, Some(1000));
    assert_eq!(dapp.active_validator_count, 1);
    assert_eq!(val.last_activity, now);
}

#[test]
fn punch_in_counts_each_validator_once_per_hour() {
    let mut dapp = test_dapp();
    let mut val = test_validator(1);
    let now: i64 = 3600 * 1000 + 420;
    punch_in(&mut dapp, &mut val, 5, now);
    punch_in(&mut dapp, &mut val, 6, now + 60);
    assert_eq!(dapp.active_validator_count, 1);
}

#[test]
fn punch_in_resets_active_count_on_new_hour() {
    let mut dapp = test_dapp();
    dapp.validator_count = 3;
    let mut val = test_validator(1);
    let mut val2 = test_validator(2);
    let now: i64 = 3600 * 1000 + 420;
    punch_in(&mut dapp, &mut val, 5, now);
    punch_in(&mut dapp, &mut val2, 6, now + 60);
    assert_eq!(dapp.active_validator_count, 2);
    punch_in(&mut dapp, &mut val, 7, now + 3600);
    assert_eq!(dapp.last_reset_hour, Some(1001));
    assert_eq!(dapp.active_validator_count, 1);
}

#[test]
fn process_player_without_seed_is_noop() {
    let mut player = test_player(None);
    let vkey = ident(1);
    let outcome = process_player(&mut player, 0, &vkey, None, 3_600_420, 1, 1, 1, 2_833_333, 20);
    assert_eq!(outcome, MintOutcome::NoSeed);
    assert!(player.partial_validators.is_empty());
}

#[test]
fn duplicate_approvals_are_not_recorded() {
    let mut player = test_player(Some(0));
    let vkey = ident(1);
    // active = 2 demands two approvals, so the claim stays pending
    let o1 = process_player(&mut player, 0, &vkey, Some(9), 3_600_420, 2, 1, 1, 2_833_333, 20);
    let o2 = process_player(&mut player, 0, &vkey, Some(9), 3_600_420, 2, 1, 1, 2_833_333, 20);
    assert_eq!(o1, MintOutcome::Pending);
    assert_eq!(o2, MintOutcome::Pending);
    assert_eq!(player.partial_validators.len(), 1);
}

#[test]
fn approvals_stop_at_capacity() {
    let mut player = test_player(Some(0));
    // push 4 distinct approvers while quorum stays pending (active = 0 makes
    // quorum impossible, so every submission just records the approval)
    for tag in 1..=4u8 {
        let o = process_player(&mut player, 0, &ident(tag), Some(9), 3_600_420, 0, 1, 1, 1, 0);
        assert_eq!(o, MintOutcome::Pending);
    }
    assert_eq!(player.partial_validators.len(), 4);
    // a fifth distinct approver is refused explicitly and nothing changes
    let o5 = process_player(&mut player, 0, &ident(5), Some(9), 3_600_420, 0, 1, 1, 1, 0);
    assert_eq!(o5, MintOutcome::ApprovalSetFull);
    assert_eq!(player.partial_validators.len(), 4);
    // one of the four present approvers still deduplicates as usual
    let o_dup = process_player(&mut player, 0, &ident(2), Some(9), 3_600_420, 0, 1, 1, 1, 0);
    assert_eq!(o_dup, MintOutcome::Pending);
    assert_eq!(player.partial_validators.len(), 4);
}

#[test]
fn quorum_never_succeeds_below_threshold() {
    // one approval, two active validators: threshold is 2
    let mut player = test_player(Some(0));
    let o = process_player(&mut player, 0, &ident(1), Some(9), 3_600_420, 2, 1, 1, 2_833_333, 20);
    assert_eq!(o, MintOutcome::Pending);
    // no active validator: quorum impossible even with approvals present
    let mut player2 = test_player(Some(0));
    player2.partial_validators.push(ident(1));
    player2.partial_validators.push(ident(2));
    let o2 = process_player(&mut player2, 0, &ident(3), Some(9), 3_600_420, 0, 1, 1, 2_833_333, 20);
    assert_eq!(o2, MintOutcome::Pending);
}

#[test]
fn out_of_window_stamps_and_does_not_mint() {
    let now: i64 = 3600 * 1000 + 1200;
    let mut player = test_player(Some(now));
    let o = process_player(&mut player, now, &ident(1), Some(9), now, 1, 1, 1, 2_833_333, 20);
    assert_eq!(o, MintOutcome::OutOfWindow);
    assert_eq!(player.last_minted, Some(now));
    assert_eq!(player.partial_validators.len(), 1);
}

#[test]
fn repeated_out_of_window_submission_is_idempotent() {
    let now: i64 = 3600 * 1000 + 1200;
    let mut player = test_player(Some(now));
    let o1 = process_player(&mut player, now, &ident(1), Some(9), now, 1, 1, 1, 2_833_333, 20);
    let approvals_after_first = player.partial_validators.len();
    let o2 = process_player(&mut player, now, &ident(1), Some(9), now, 1, 1, 1, 2_833_333, 20);
    let o3 = process_player(&mut player, now, &ident(1), Some(9), now, 1, 1, 1, 2_833_333, 20);
    assert_eq!(o1, MintOutcome::OutOfWindow);
    assert_eq!(o2, MintOutcome::OutOfWindow);
    assert_eq!(o3, MintOutcome::OutOfWindow);
    assert_eq!(player.partial_validators.len(), approvals_after_first);
    assert_eq!(player.partial_validators.len(), 1);
    assert_eq!(player.last_minted, Some(now));
}

#[test]
fn twenty_minutes_at_configured_rate_mints_with_commission() {
    let now: i64 = 3600 * 1000 + 1200;
    let pre_read: i64 = now - 20 * 60;
    let mut player = test_player(Some(pre_read));
    let o = process_player(&mut player, pre_read, &ident(1), Some(9), now, 1, 1, 1, 2_833_333, 20);
    assert_eq!(o, MintOutcome::Minted { amount: 56_666_660, commission: 11_333_332 });
    assert!(player.partial_validators.is_empty());
    assert_eq!(player.last_minted, Some(now));
}

#[test]
fn concurrent_submission_with_stale_marker_does_not_mint() {
    let now: i64 = 3600 * 1000 + 1200;
    let pre_read: i64 = now - 20 * 60;
    let mut player = test_player(Some(pre_read));
    // both submissions read the marker before either ran
    let o1 = process_player(&mut player, pre_read, &ident(1), Some(9), now, 1, 1, 1, 2_833_333, 20);
    assert!(matches!(o1, MintOutcome::Minted { .. }));
    // the second runs after the first, still carrying the stale marker
    let o2 = process_player(
        &mut player,
        pre_read,
        &ident(2),
        Some(9),
        now + 120,
        1,
        1,
        1,
        2_833_333,
        20,
    );
    assert_eq!(o2, MintOutcome::ConcurrencySkipped);
}

#[test]
fn submit_blocked_without_punch_in() {
    let dapp = test_dapp();
    let mut val = test_validator(1);
    let mut players = vec![test_player(None)];
    let r = submit_minting_list(
        &dapp,
        &mut val,
        &ident(1),
        true,
        Some(dapp.commission_ata),
        &mut players,
        3600 * 1000 + 420,
    );
    match r {
        Ok(SubmitOutcome::Blocked(g)) => assert_eq!(g, BatchGate::NoPunchInThisHour),
        other => panic!("expected a blocked batch, got {:?}", other),
    }
}

#[test]
fn submit_blocked_during_quiet_window() {
    let mut dapp = test_dapp();
    let mut val = test_validator(1);
    let early: i64 = 3600 * 1000 + 180;
    punch_in(&mut dapp, &mut val, 5, early);
    let mut players = vec![test_player(None)];
    let r = submit_minting_list(
        &dapp,
        &mut val,
        &ident(1),
        true,
        Some(dapp.commission_ata),
        &mut players,
        early,
    );
    match r {
        Ok(SubmitOutcome::Blocked(g)) => assert_eq!(g, BatchGate::QuietWindow),
        other => panic!("expected a blocked batch, got {:?}", other),
    }
}

#[test]
fn submit_rejects_unregistered_validator() {
    let dapp = test_dapp();
    let mut val = test_validator(1);
    let mut players = vec![];
    let r = submit_minting_list(
        &dapp,
        &mut val,
        &ident(99),
        true,
        Some(dapp.commission_ata),
        &mut players,
        3600 * 1000 + 420,
    );
    assert!(matches!(r, Err(ErrorCode::ValidatorNotRegistered)));
}

#[test]
fn submit_demands_gateway_when_not_curated() {
    let mut dapp = test_dapp();
    dapp.curated_val = false;
    let mut val = test_validator(1);
    let mut players = vec![];
    let r = submit_minting_list(&dapp, &mut val, &ident(1), false, None, &mut players, 3600_420);
    assert!(matches!(r, Err(ErrorCode::GatewayVerificationFailed)));
}

#[test]
fn submit_demands_matching_commission_account() {
    let mut dapp = test_dapp();
    let mut val = test_validator(1);
    let now: i64 = 3600 * 1000 + 420;
    punch_in(&mut dapp, &mut val, 5, now);
    let mut players = vec![];
    let missing = submit_minting_list(&dapp, &mut val, &ident(1), true, None, &mut players, now);
    assert!(matches!(missing, Err(ErrorCode::MissingCommissionAta)));
    let wrong = submit_minting_list(&dapp, &mut val, &ident(1), true, Some(ident(7)), &mut players, now);
    assert!(matches!(wrong, Err(ErrorCode::InvalidCommissionAta)));
}

#[test]
fn submit_processes_batch_and_stamps_validator() {
    let mut dapp = test_dapp();
    let mut val = test_validator(1);
    let now: i64 = 3600 * 1000 + 420;
    punch_in(&mut dapp, &mut val, 5, now);
    assert_eq!(dapp.active_validator_count, 1);
    let eligible = test_player(Some(now - 20 * 60));
    let too_recent = test_player(Some(now));
    let mut players = vec![eligible, too_recent];
    let r = submit_minting_list(
        &dapp,
        &mut val,
        &ident(1),
        true,
        Some(dapp.commission_ata),
        &mut players,
        now,
    );
    match r {
        Ok(SubmitOutcome::Processed(outcomes)) => {
            assert_eq!(outcomes.len(), 2);
            assert_eq!(
                outcomes[0],
                MintOutcome::Minted { amount: 56_666_660, commission: 11_333_332 }
            );
            assert_eq!(outcomes[1], MintOutcome::OutOfWindow);
        },
        other => panic!("expected a processed batch, got {:?}", other),
    }
    assert_eq!(val.last_minted, Some(now));
    assert!(players[0].partial_validators.is_empty());
    assert_eq!(players[1].partial_validators.len(), 1);
    assert_eq!(players[1].last_minted, Some(now));
}

#[test]
fn submit_with_empty_batch_processes_nothing() {
    let mut dapp = test_dapp();
    let mut val = test_validator(1);
    let now: i64 = 3600 * 1000 + 420;
    punch_in(&mut dapp, &mut val, 5, now);
    let mut players: Vec<PlayerPda> = Vec::new();
    let r = submit_minting_list(
        &dapp,
        &mut val,
        &ident(1),
        true,
        Some(dapp.commission_ata),
        &mut players,
        now,
    );
    match r {
        Ok(SubmitOutcome::Processed(outcomes)) => assert!(outcomes.is_empty()),
        other => panic!("expected a processed batch, got {:?}", other),
    }
    assert_eq!(val.last_minted, None);
}

#[test]
fn session_time_is_capped_at_eight_hours() {
    let mut player = test_player(None);
    let mut val = test_validator(1);
    let now: i64 = 3600 * 1000;
    let r = validate_player_pubg_time_slim(
        &mut player, &mut val, &ident(1), &ident(101), 9 * 3600, 2_833_333, 20, now,
    );
    let issuance = r
        .expect("checks should pass")
        .expect("eight capped hours should be owed");
    // 480 minutes at the configured rate, commission at 20%
    assert_eq!(issuance.amount, 480 * 2_833_333);
    assert_eq!(issuance.commission, 480 * 2_833_333 / 5);
    assert_eq!(player.pending_game_time_ms, Some(9 * 3600));
    assert_eq!(val.last_minted, Some(now));
}

#[test]
fn session_without_gain_owes_nothing() {
    let mut player = test_player(None);
    player.pending_game_time_ms = Some(5000);
    let mut val = test_validator(1);
    let r = validate_player_pubg_time_slim(
        &mut player, &mut val, &ident(1), &ident(101), 5000, 2_833_333, 20, 3600,
    );
    assert_eq!(r, Ok(None));
    assert_eq!(player.pending_game_time_ms, Some(5000));
    assert_eq!(val.last_minted, None);
}

#[test]
fn session_rejects_wrong_payout_account_or_signer() {
    let mut player = test_player(None);
    let mut val = test_validator(1);
    let r = validate_player_pubg_time_slim(
        &mut player, &mut val, &ident(1), &ident(9), 3600, 2_833_333, 20, 3600,
    );
    assert_eq!(r, Err(ErrorCode::InvalidAtaAccount));
    let r = validate_player_pubg_time_slim(
        &mut player, &mut val, &ident(2), &ident(101), 3600, 2_833_333, 20, 3600,
    );
    assert_eq!(r, Err(ErrorCode::ValidatorNotRegistered));
    // nothing was mutated on either rejection
    assert_eq!(player.pending_game_time_ms, Some(0));
    assert_eq!(val.last_minted, None);
}

#[test]
fn split_path_approve_is_registration_gated_and_capacity_bounded() {
    let mut player = test_player(None);
    let val = test_validator(1);
    // a signer who does not own the validator record is rejected
    let r = approve_player_minting(&mut player, &val, &ident(9));
    assert_eq!(r, Err(ErrorCode::ValidatorNotRegistered));
    assert!(player.partial_validators.is_empty());
    // first approval is recorded, the second deduplicates
    assert_eq!(approve_player_minting(&mut player, &val, &ident(1)), Ok(ApprovalStatus::Recorded));
    assert_eq!(
        approve_player_minting(&mut player, &val, &ident(1)),
        Ok(ApprovalStatus::AlreadyRecorded)
    );
    assert_eq!(player.partial_validators.len(), 1);
    // at capacity a new approver is refused
    for tag in 2..=4u8 {
        let v = test_validator(tag);
        assert_eq!(
            approve_player_minting(&mut player, &v, &ident(tag)),
            Ok(ApprovalStatus::Recorded)
        );
    }
    let fifth = test_validator(5);
    assert_eq!(approve_player_minting(&mut player, &fifth, &ident(5)), Ok(ApprovalStatus::SetFull));
    assert_eq!(player.partial_validators.len(), 4);
}
