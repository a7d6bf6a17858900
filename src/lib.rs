//! Accounting core of a pooled-asset basket token: NAV-priced share issuance
//! and redemption, and pro-rata dividend distribution through a per-share
//! accumulator with per-holder debt.

pub mod basket;
pub mod compliance;
pub mod error;
pub mod fixed;
pub mod key;
pub mod lemmas;
pub mod oracle_adapter;
pub mod state;

pub use basket::{
    admin_set_nav_q64, claim_dividends, create_basket, deposit_dividends, mint_shares,
    redeem_shares, set_pause, update_nav, AdminOnly, Claim, CreateBasket, MintShares,
    RedeemShares,
};
pub use compliance::{set_kyc, SetKyc};
pub use error::{BasketError, OracleError};
pub use fixed::{qdiv, qmul, saturating_mul_u128, Q64_ONE};
pub use key::Pubkey;
pub use oracle_adapter::{set_nav, SetNav};
pub use state::{Basket, KycRecord, UserPosition};
