//! The persisted records: one basket, one position per holder and basket, and
//! one KYC record per user.
use vstd::prelude::*;

use crate::key::Pubkey;

verus! {

/// State of one basket token.
#[derive(Debug, Clone, Copy, PartialEq, Eq)]
pub struct Basket {
    /// The only identity allowed to run privileged operations; fixed at creation.
    pub admin: Pubkey,
    /// The base asset deposited into the basket.
    pub base_mint: Pubkey,
    /// The basket's share asset.
    pub basket_mint: Pubkey,
    /// The pooled-custody account holding the base asset.
    pub base_vault: Pubkey,
    /// Management fee in basis points; no fee is accrued yet.
    pub mgmt_fee_bps: u16,
    /// While set, issuance and redemption are rejected.
    pub paused: bool,
    /// Last fee-accrual instant, in seconds since the Unix epoch.
    pub last_fee_ts: i64,
    /// Price of one share in base units, Q64.64; zero means not yet set.
    pub nav_per_share_q64: u128,
    /// Cumulative dividend per share, Q64.64; never decreases.
    pub acc_div_per_share_q64: u128,
    /// Bump seed of the basket's derived address.
    pub bump: u8,
}

impl Basket {
    /// Size of the serialized record, without its 8-byte discriminator.
    pub const SIZE: usize = 32 + 32 + 32 + 32 + 2 + 1 + 8 + 16 + 16 + 1;
}

/// One holder's position in one basket.
#[derive(Debug, Clone, Copy, PartialEq, Eq)]
pub struct UserPosition {
    pub owner: Pubkey,
    pub basket: Pubkey,
    /// `shares held * accumulator` (Q64.64) as of the holder's last settlement.
    pub div_debt_q64: u128,
}

impl UserPosition {
    /// Size of the serialized record, without its 8-byte discriminator.
    pub const SIZE: usize = 32 + 32 + 16;
}

/// Whether a user has passed KYC, as last set by an admin.
#[derive(Debug, Clone, Copy, PartialEq, Eq)]
pub struct KycRecord {
    pub admin: Pubkey,
    pub user: Pubkey,
    pub allowed: bool,
}

impl KycRecord {
    /// Size of the serialized record, without its 8-byte discriminator.
    pub const SIZE: usize = 32 + 32 + 1;
}

} // verus!
