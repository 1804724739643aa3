//! The data model: the shared deployment state (`Dapp`), one record per
//! validator, one per beneficiary ("player"), plus the small name-uniqueness
//! and wallet-registration records. Each type carries a well-formedness
//! predicate that constructors establish and every operation preserves.

use vstd::prelude::*;
use crate::ids::Identity;
use crate::policy::{MAX_COMMISSION_PERCENT, MAX_HOUR_TIMESTAMP, MAX_PARTIAL_VALIDATORS, MAX_RATE};

verus! {

/// A stored timestamp is either unset or a non-negative count of seconds
/// whose hour bucket fits the stored 32-bit hour.
pub open spec fn opt_time_wf(t: Option<i64>) -> bool {
    t matches Some(v) ==> 0 <= v <= MAX_HOUR_TIMESTAMP
}

/// The shared deployment state: epoch bookkeeping, the issuance policy and
/// its lock flags, and the registry counters.
pub struct Dapp {
    pub player_count: u32,
    pub validator_count: u32,
    /// Validators that have checked in during the current epoch.
    pub active_validator_count: u32,
    /// The epoch (hour bucket) in which `active_validator_count` was last
    /// reset, unset until the first check-in.
    pub last_reset_hour: Option<u32>,
    pub description: String,
    pub socials: String,
    /// The shared pseudo-random seed, refreshed by every check-in.
    pub last_seed: Option<u64>,
    pub last_punch_in_time: Option<i64>,
    pub mint_pubkey: Identity,
    /// Account receiving the commission portion of each issuance.
    pub commission_ata: Identity,
    /// Commission percentage in `[0, 100]`.
    pub commission_percent: u16,
    /// Tokens issued to a beneficiary per eligible minute.
    pub coin_issuance_rate: u64,
    /// Tokens a validator may self-claim per eligible minute.
    pub validator_claim_rate: u64,
    /// Whether validators are added only by the owner.
    pub curated_val: bool,
    pub owner: Identity,
    pub claim_rate_lock: bool,
    pub coin_issuance_rate_lock: bool,
    pub commission_percent_lock: bool,
    pub gatekeeper_network: Identity,
    /// Maximum number of beneficiaries; zero means unlimited.
    pub player_limit: u32,
}

impl Dapp {
    pub open spec fn wf(self) -> bool {
        &&& self.commission_percent <= MAX_COMMISSION_PERCENT
        &&& self.coin_issuance_rate <= MAX_RATE
        &&& self.validator_claim_rate <= MAX_RATE
        &&& self.active_validator_count <= self.validator_count
        &&& opt_time_wf(self.last_punch_in_time)
    }
}

/// Per-validator record.
pub struct ValidatorPda {
    pub address: Identity,
    /// Timestamp of the most recent check-in.
    pub last_activity: i64,
    /// Timestamp of the most recent successful issuance this validator took
    /// part in; also stamped when the validator is made ineligible.
    pub last_minted: Option<i64>,
    /// Timestamp of the most recent self-claim.
    pub last_claimed: Option<i64>,
}

impl ValidatorPda {
    pub open spec fn wf(self) -> bool {
        &&& 0 <= self.last_activity <= MAX_HOUR_TIMESTAMP
        &&& opt_time_wf(self.last_minted)
        &&& opt_time_wf(self.last_claimed)
    }
}

/// Per-beneficiary ("player") record.
pub struct PlayerPda {
    /// The beneficiary's name as canonical UTF-8 bytes.
    pub name: Vec<u8>,
    pub authority: Identity,
    /// Destination account for issued rewards.
    pub reward_address: Identity,
    pub last_name_change: Option<i64>,
    pub last_reward_change: Option<i64>,
    /// Distinct validators that have approved the pending claim.
    pub partial_validators: Vec<Identity>,
    /// Timestamp of the most recent issuance outcome (mint or time-gate
    /// rejection); the concurrency guard re-reads it before finalizing.
    pub last_minted: Option<i64>,
    pub pending_claim_ts: Option<i64>,
    /// Total validated session time, in seconds.
    pub pending_game_time_ms: Option<i64>,
    pub pending_paid: bool,
    pub last_claim_ts: Option<i64>,
}

impl PlayerPda {
    pub open spec fn wf(self) -> bool {
        &&& self.partial_validators@.no_duplicates()
        &&& self.partial_validators@.len() <= MAX_PARTIAL_VALIDATORS
        &&& opt_time_wf(self.last_name_change)
        &&& opt_time_wf(self.last_reward_change)
        &&& opt_time_wf(self.last_minted)
        &&& opt_time_wf(self.pending_claim_ts)
        &&& opt_time_wf(self.pending_game_time_ms)
        &&& opt_time_wf(self.last_claim_ts)
    }
}

/// Maps a name to the beneficiary record that owns it, ensuring uniqueness.
pub struct PlayerNamePda {
    pub name: Vec<u8>,
    /// Key of the beneficiary record using this name.
    pub player_pda: Identity,
    pub active: bool,
}

/// Marks a wallet as registered with the deployment.
pub struct WalletPda {
    pub wallet: Identity,
    pub is_registered: bool,
}

} // verus!
