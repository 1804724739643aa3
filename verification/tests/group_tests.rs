use fancoin::group::{calculate_failover_tolerance, calculate_group_id_mod, circular_distance, total_groups};
use fancoin::hashing::{calculate_group_id, generate_seed};
use fancoin::ids::Identity;
use sha3::{Digest, Keccak256};

fn mk_id(tag: u8) -> Identity {
    let mut bytes = [0u8; 32];
    bytes[0] = tag;
    bytes[31] = tag.wrapping_mul(7);
    Identity { bytes }
}

fn reference_group_value(id: &Identity, seed: u64) -> u64 {
    let mut hasher = Keccak256::new();
    hasher.update(id.bytes);
    hasher.update(seed.to_le_bytes());
    let digest = hasher.finalize();
    let mut first8 = [0u8; 8];
    first8.copy_from_slice(&digest[0..8]);
    u64::from_be_bytes(first8)
}

fn reference_seed_value(id: &Identity, counter: u64) -> u64 {
    let mut hasher = Keccak256::new();
    hasher.update(id.bytes);
    hasher.update(counter.to_le_bytes());
    let digest = hasher.finalize();
    let mut first8 = [0u8; 8];
    first8.copy_from_slice(&digest[0..8]);
    u64::from_le_bytes(first8)
}

#[test]
fn group_value_matches_independent_keccak() {
    let id = mk_id(42);
    let seed = 0x1122_3344_5566_7788u64;
    assert_eq!(calculate_group_id(&id, seed), reference_group_value(&id, seed));
    let other = mk_id(7);
    assert_eq!(calculate_group_id(&other, 0), reference_group_value(&other, 0));
}

#[test]
fn seed_value_matches_independent_keccak() {
    let id = mk_id(9);
    let slot = 123_456_789u64;
    assert_eq!(generate_seed(&id, slot), reference_seed_value(&id, slot));
}

#[test]
fn group_id_is_deterministic_across_calls() {
    let id = mk_id(3);
    let a = calculate_group_id_mod(&id, 55, 10);
    let b = calculate_group_id_mod(&id, 55, 10);
    assert_eq!(a, b);
    assert!(a < 10);
}

#[test]
fn group_id_with_zero_groups_is_zero() {
    for tag in [0u8, 1, 77, 255] {
        let id = mk_id(tag);
        assert_eq!(calculate_group_id_mod(&id, 999, 0), 0);
        assert_eq!(calculate_group_id_mod(&id, 0, 0), 0);
    }
}

#[test]
fn circular_distance_within_tolerance_succeeds() {
    // groups 3 and 5 of 10: distance 2, tolerance 2 => consensus
    assert_eq!(circular_distance(3, 5, 10), 2);
    assert!(circular_distance(3, 5, 10) <= 2);
}

#[test]
fn circular_distance_beyond_tolerance_rejects() {
    // groups 1 and 8 of 10: min(7, 3) = 3 > tolerance 2 => rejected
    assert_eq!(circular_distance(1, 8, 10), 3);
    assert!(circular_distance(1, 8, 10) > 2);
}

#[test]
fn total_groups_is_ceiling_of_quarter() {
    assert_eq!(total_groups(0), 0);
    assert_eq!(total_groups(1), 1);
    assert_eq!(total_groups(4), 1);
    assert_eq!(total_groups(5), 2);
    assert_eq!(total_groups(40), 10);
}

#[test]
fn tolerance_is_digit_count_of_group_count() {
    assert_eq!(calculate_failover_tolerance(0), 1);
    assert_eq!(calculate_failover_tolerance(4), 1);
    assert_eq!(calculate_failover_tolerance(36), 1);
    assert_eq!(calculate_failover_tolerance(40), 2);
    assert_eq!(calculate_failover_tolerance(400), 3);
    assert_eq!(calculate_failover_tolerance(4000), 4);
}

#[test]
fn tolerance_is_non_decreasing() {
    let mut previous = calculate_failover_tolerance(0);
    for n in 0..2000u32 {
        let t = calculate_failover_tolerance(n);
        assert!(t >= previous);
        previous = t;
    }
}
