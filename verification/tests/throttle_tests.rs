use fancoin::commission::compute_commission;
use fancoin::errors::ErrorCode;
use fancoin::ids::Identity;
use fancoin::records::ValidatorPda;
use fancoin::throttle::{claim_validator_reward, elapsed_minutes, issuance_amount};

fn key(tag: u8) -> Identity {
    let mut bytes = [0u8; 32];
    bytes[5] = tag;
    Identity { bytes }
}

#[test]
fn elapsed_minutes_truncates_to_whole_minutes() {
    assert_eq!(elapsed_minutes(1200, 0), 20);
    assert_eq!(elapsed_minutes(1259, 0), 20);
    assert_eq!(elapsed_minutes(59, 0), 0);
    assert_eq!(elapsed_minutes(100, 100), 0);
    // a last timestamp in the future counts as no elapsed time
    assert_eq!(elapsed_minutes(100, 5000), 0);
}

#[test]
fn issuance_amount_is_minutes_times_rate() {
    assert_eq!(issuance_amount(20, 2_833_333), 56_666_660);
    assert_eq!(issuance_amount(0, 2_833_333), 0);
    assert_eq!(issuance_amount(34, 60_000_000), 2_040_000_000);
}

#[test]
fn commission_is_floored_percentage() {
    assert_eq!(compute_commission(56_666_660, 20), 11_333_332);
    assert_eq!(compute_commission(99, 10), 9);
    assert_eq!(compute_commission(12345, 0), 0);
    assert_eq!(compute_commission(u64::MAX, 100), u64::MAX);
}

fn validator(last_minted: Option<i64>, last_claimed: Option<i64>) -> ValidatorPda {
    ValidatorPda { address: key(1), last_activity: 0, last_minted, last_claimed }
}

#[test]
fn claim_pays_capped_minutes_while_eligible() {
    // last claim 90 minutes ago, last issuance participation 10 minutes ago:
    // the reward covers 60 capped minutes, not 90
    let now: i64 = 100_000;
    let mut v = validator(Some(now - 10 * 60), Some(now - 90 * 60));
    let r = claim_validator_reward(&mut v, &key(1), 28_570, now, true);
    assert_eq!(r, Ok(Some(60 * 28_570)));
    assert_eq!(v.last_claimed, Some(now));
    assert_eq!(v.last_minted, Some(now - 10 * 60));
}

#[test]
fn claim_rejected_when_participation_is_stale() {
    let now: i64 = 100_000;
    let mut v = validator(Some(now - 2 * 3600), Some(now - 90 * 60));
    let r = claim_validator_reward(&mut v, &key(1), 28_570, now, true);
    assert_eq!(r, Ok(None));
    assert_eq!(v.last_claimed, Some(now - 90 * 60));
}

#[test]
fn claim_pays_nothing_too_soon_after_last_claim() {
    let now: i64 = 100_000;
    let mut v = validator(Some(now - 10 * 60), Some(now - 30));
    let r = claim_validator_reward(&mut v, &key(1), 28_570, now, true);
    assert_eq!(r, Ok(None));
}

#[test]
fn claim_checks_signer_and_gateway() {
    let now: i64 = 100_000;
    let mut v = validator(Some(now), Some(0));
    let r = claim_validator_reward(&mut v, &key(2), 28_570, now, true);
    assert_eq!(r, Err(ErrorCode::ValidatorNotRegistered));
    let r = claim_validator_reward(&mut v, &key(1), 28_570, now, false);
    assert_eq!(r, Err(ErrorCode::GatewayVerificationFailed));
}
