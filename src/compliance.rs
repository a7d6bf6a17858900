//! KYC records: whether a user is allowed, and which admin said so.
use vstd::prelude::*;

use crate::key::Pubkey;
use crate::state::KycRecord;

verus! {

/// Accounts of a KYC update: the signer and the user's record.
#[derive(Debug, Clone, Copy)]
pub struct SetKyc {
    pub admin: Pubkey,
    pub kyc_record: KycRecord,
}

/// Records whether `user` is allowed, signed by the caller.
pub fn set_kyc(ctx: &mut SetKyc, user: Pubkey, allowed: bool)
    ensures
        *final(ctx) == (SetKyc {
            kyc_record: KycRecord { admin: old(ctx).admin, user, allowed },
            ..*old(ctx)
        }),
{
    ctx.kyc_record.admin = ctx.admin;
    ctx.kyc_record.user = user;
    ctx.kyc_record.allowed = allowed;
}

} // verus!
