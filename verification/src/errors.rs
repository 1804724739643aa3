//! Precondition errors: conditions that reject an entire instruction before
//! any state is mutated. Per-item policy rejections are reported as outcomes,
//! not as errors.

use vstd::prelude::*;

verus! {

#[derive(Clone, Copy, Debug, PartialEq, Eq, Structural)]
pub enum ErrorCode {
    /// The signer is not the required authority or owner.
    Unauthorized,
    /// The submitting validator's record does not match the signer.
    ValidatorNotRegistered,
    /// A beneficiary name is longer than the allowed maximum.
    InvalidNameLength,
    /// The name was changed less than a day ago.
    NameChangeCooldown,
    /// The reward address was changed less than a day ago.
    RewardChangeCooldown,
    /// The commission percentage exceeds 100.
    CommissionTooLarge,
    /// The per-minute issuance rate exceeds the fixed maximum.
    IssuanceRateTooLarge,
    /// The per-minute validator claim rate exceeds the fixed maximum.
    ClaimRateTooLarge,
    /// The instruction is reserved for curated deployments.
    DappIsNotCurated,
    /// Registration would exceed the configured beneficiary limit.
    PlayerLimitReached,
    /// The field name passed to a lock instruction is not recognised.
    InvalidLockString,
    /// The identity gateway rejected the caller's attestation.
    GatewayVerificationFailed,
    /// No commission destination was supplied with the submission.
    MissingCommissionAta,
    /// The supplied commission destination does not match the configured one.
    InvalidCommissionAta,
    /// The supplied payout account does not match the stored reward address.
    InvalidAtaAccount,
}

} // verus!
