//! Named policy constants: epoch width, issuance window, claim caps, record
//! capacities and the upper bounds on configurable rates.

use vstd::prelude::*;

verus! {

/// Width of an epoch in seconds (one hour).
pub const EPOCH_SECONDS: i64 = 3600;

/// Seconds per minute, used when converting elapsed time to whole minutes.
pub const SECONDS_PER_MINUTE: i64 = 60;

/// Reward-issuing submissions are rejected as no-ops during the first minutes
/// of each epoch; check-ins are still accepted.
pub const QUIET_MINUTES: u32 = 7;

/// A beneficiary issuance requires at least this many elapsed whole minutes.
pub const MIN_WINDOW_MINUTES: u64 = 1;

/// A beneficiary issuance pays for at most this many elapsed whole minutes.
pub const MAX_WINDOW_MINUTES: u64 = 34;

/// A validator self-claim pays for at most this many minutes.
pub const CLAIM_CAP_MINUTES: u64 = 60;

/// A validator may self-claim only while its last participation in a
/// successful issuance is at most this recent.
pub const CLAIM_ELIGIBILITY_SECONDS: i64 = 3600;

/// Upper bound on both configurable per-minute rates.
pub const MAX_RATE: u64 = 60_000_000;

/// Upper bound on the commission percentage.
pub const MAX_COMMISSION_PERCENT: u16 = 100;

/// Capacity of a beneficiary's pending-approval set.
pub const MAX_PARTIAL_VALIDATORS: usize = 4;

/// Maximum beneficiary name length in bytes.
pub const MAX_NAME_LEN: usize = 30;

/// Cooldown between name changes (one day).
pub const NAME_CHANGE_COOLDOWN_SECONDS: i64 = 24 * 3600;

/// Cooldown between reward-address changes (one day).
pub const REWARD_CHANGE_COOLDOWN_SECONDS: i64 = 24 * 3600;

/// A pending claim older than this is treated as settled, so the holder can
/// request again (one minute short of six hours).
pub const STALE_CLAIM_SECONDS: i64 = 5 * 3600 + 59 * 60;

/// A validated play session is credited at most this many seconds (eight
/// hours).
pub const MAX_SESSION_SECONDS: u64 = 8 * 3600;

/// The largest timestamp whose hour bucket fits the stored 32-bit hour
/// (`u32::MAX` hours of 3600 seconds).
pub const MAX_HOUR_TIMESTAMP: i64 = 4294967295 * 3600;

} // verus!
