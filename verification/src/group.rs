//! Group assignment and failover tolerance. Validators are partitioned into
//! `ceil(total / 4)` groups by hashing; consensus additionally requires every
//! approver's group to lie within a circular distance of the first approver's
//! group. The allowed distance — the failover tolerance — is the number of
//! base-10 digits of the group count, so it grows logarithmically with the
//! validator population. The plain digit count, with no extra unit of slack,
//! is fixed as the policy.

use vstd::prelude::*;
use vstd::arithmetic::div_mod::lemma_div_is_ordered;
use vstd::arithmetic::power::pow;
use crate::hashing::{spec_group_value, calculate_group_id};
use crate::ids::Identity;

verus! {

/// The number of groups for a validator population: `ceil(n / 4)`.
pub open spec fn spec_total_groups(total_validators: int) -> int {
    (total_validators + 3) / 4
}

/// Computes `ceil(total_validators / 4)`.
pub fn total_groups(total_validators: u32) -> (r: u64)
    ensures
        r == spec_total_groups(total_validators as int),
{
    ((total_validators as u64) + 3) / 4
}

/// The number of base-10 digits of `n` (one digit for zero).
pub open spec fn spec_digit_count(n: int) -> int
    decreases n,
{
    if n < 10 {
        1
    } else {
        1 + spec_digit_count(n / 10)
    }
}

pub proof fn lemma_digit_count_pos(n: int)
    ensures
        spec_digit_count(n) >= 1,
    decreases n,
{
    if n >= 10 {
        lemma_digit_count_pos(n / 10);
    }
}

/// A number below `10^k` has at most `k` digits.
pub proof fn lemma_digit_count_le(n: int, k: nat)
    requires
        k >= 1,
        n < pow(10, k),
    ensures
        spec_digit_count(n) <= k,
    decreases n,
{
    if n >= 10 {
        assert(pow(10, k) == 10 * pow(10, (k - 1) as nat)) by {
            reveal_with_fuel(pow, 1);
        };
        assert(n / 10 < pow(10, (k - 1) as nat)) by (nonlinear_arith)
            requires
                n < 10 * pow(10, (k - 1) as nat),
                n >= 10,
        ;
        assert(k - 1 >= 1) by {
            if k == 1 {
                assert(pow(10, 1) == 10) by { reveal_with_fuel(pow, 2); };
            }
        }
        lemma_digit_count_le(n / 10, (k - 1) as nat);
    }
}

/// The digit count never shrinks as the number grows.
pub proof fn lemma_digit_count_monotone(m: int, n: int)
    requires
        m <= n,
    ensures
        spec_digit_count(m) <= spec_digit_count(n),
    decreases n,
{
    if n < 10 {
        // both sides are one digit (or m is even smaller)
    } else if m < 10 {
        lemma_digit_count_pos(n / 10);
    } else {
        lemma_div_is_ordered(m, n, 10);
        lemma_digit_count_monotone(m / 10, n / 10);
    }
}

/// The failover tolerance for a validator population: the digit count of the
/// group count.
pub open spec fn spec_failover_tolerance(total_validators: int) -> int {
    spec_digit_count(spec_total_groups(total_validators))
}

/// Computes the failover tolerance: the number of base-10 digits of
/// `ceil(total_validators / 4)`.
pub fn calculate_failover_tolerance(total_validators: u32) -> (r: u64)
    ensures
        r == spec_failover_tolerance(total_validators as int),
        1 <= r <= 10,
{
    let groups = total_groups(total_validators);
    let ghost g0: int = groups as int;
    proof {
        assert(pow(10, 10) == 10_000_000_000) by { reveal_with_fuel(pow, 11); };
        lemma_digit_count_le(g0, 10);
        lemma_digit_count_pos(g0);
    }
    let mut v: u64 = groups;
    let mut d: u64 = 1;
    while v >= 10
        invariant
            d >= 1,
            spec_digit_count(g0) == d - 1 + spec_digit_count(v as int),
            spec_digit_count(v as int) >= 1,
            d - 1 + spec_digit_count(v as int) <= 10,
        decreases v,
    {
        proof {
            lemma_digit_count_pos(v as int / 10);
        }
        v = v / 10;
        d = d + 1;
    }
    d
}

/// Tolerance is non-decreasing in the validator population: a larger
/// validator set never tightens the allowed group distance.
pub proof fn lemma_tolerance_monotone(n1: int, n2: int)
    requires
        n1 <= n2,
    ensures
        spec_failover_tolerance(n1) <= spec_failover_tolerance(n2),
{
    lemma_div_is_ordered(n1 + 3, n2 + 3, 4);
    lemma_digit_count_monotone(spec_total_groups(n1), spec_total_groups(n2));
}

/// The group of an identity under a seed, reduced modulo the group count;
/// zero when there are no groups.
pub open spec fn spec_group_id(identity: Seq<u8>, seed: u64, total_groups: int) -> int {
    if total_groups > 0 {
        spec_group_value(identity, seed) % total_groups
    } else {
        0
    }
}

/// Assigns `address` to a group under `seed`: the Keccak-256 group value
/// reduced modulo `total_groups`, or 0 when `total_groups` is 0.
pub fn calculate_group_id_mod(address: &Identity, seed: u64, total_groups: u64) -> (r: u64)
    ensures
        r == spec_group_id(address@, seed, total_groups as int),
        total_groups > 0 ==> r < total_groups,
{
    let raw = calculate_group_id(address, seed);
    if total_groups > 0 {
        raw % total_groups
    } else {
        0
    }
}

/// Group assignment is deterministic: two results computed from the same
/// identity, seed and group count are the same group.
pub proof fn lemma_group_id_deterministic(
    identity: Seq<u8>,
    seed: u64,
    total_groups: int,
    r1: int,
    r2: int,
)
    requires
        r1 == spec_group_id(identity, seed, total_groups),
        r2 == spec_group_id(identity, seed, total_groups),
    ensures
        r1 == r2,
{
}

/// The circular distance between two groups on a ring of `total_groups`
/// groups: the shorter way around.
pub open spec fn spec_circular_distance(g1: int, g2: int, total_groups: int) -> int {
    let direct = if g1 >= g2 { g1 - g2 } else { g2 - g1 };
    let wrap = total_groups - direct;
    if direct <= wrap {
        direct
    } else {
        wrap
    }
}

/// Computes the circular distance between two group ids.
pub fn circular_distance(g1: u64, g2: u64, total_groups: u64) -> (r: u64)
    requires
        g1 < total_groups,
        g2 < total_groups,
    ensures
        r == spec_circular_distance(g1 as int, g2 as int, total_groups as int),
{
    let direct = if g1 >= g2 { g1 - g2 } else { g2 - g1 };
    let wrap = total_groups - direct;
    if direct <= wrap {
        direct
    } else {
        wrap
    }
}

} // verus!
