//! A reward-token consensus engine: validators deterministically partition
//! into pseudo-random groups each epoch, and a beneficiary's reward claim is
//! honored only when enough distinct validators from sufficiently nearby
//! groups agree, within a time-gated window, without double issuance under
//! concurrent submission.

pub mod admin;
pub mod codec;
pub mod commission;
pub mod engine;
pub mod errors;
pub mod group;
pub mod hashing;
pub mod policy;
pub mod ids;
pub mod quorum;
pub mod records;
pub mod registry;
pub mod throttle;
