//! The oracle path for NAV updates. Unlike the admin path of the basket
//! program, it does not look at the pause flag.
use vstd::prelude::*;

use crate::basket::update_nav;
use crate::error::OracleError;
use crate::key::Pubkey;
use crate::state::Basket;

verus! {

/// Accounts of an oracle NAV update: the signer and the basket.
#[derive(Debug, Clone, Copy)]
pub struct SetNav {
    pub admin: Pubkey,
    pub basket: Basket,
}

/// Sets the NAV per share (Q64.64) of the basket. Only the basket's admin may
/// call this; a paused basket accepts the update.
pub fn set_nav(ctx: &mut SetNav, nav_per_share_q64: u128) -> (r: Result<(), OracleError>)
    ensures
        old(ctx).admin != old(ctx).basket.admin ==> r == Err::<(), OracleError>(
            OracleError::Unauthorized,
        ),
        old(ctx).admin == old(ctx).basket.admin ==> r == Ok::<(), OracleError>(()),
        r is Err ==> *final(ctx) == *old(ctx),
        r is Ok ==> *final(ctx) == (SetNav {
            basket: Basket { nav_per_share_q64, ..old(ctx).basket },
            ..*old(ctx)
        }),
{
    let caller = ctx.admin;
    match update_nav(&mut ctx.basket, &caller, nav_per_share_q64, false) {
        Ok(()) => Ok(()),
        Err(_) => Err(OracleError::Unauthorized),
    }
}

} // verus!
