//! The accounting engine of the basket program. Each instruction reads the
//! records it is handed, decides, and either fails without changing them or
//! updates them and returns the amount that the host must move.
use vstd::prelude::*;

use crate::error::BasketError;
use crate::fixed::{monus, q_div, q_mul, qdiv, qmul, saturate, saturating_mul_u128, Q64_ONE};
use crate::key::Pubkey;
use crate::state::{Basket, UserPosition};

verus! {

/// Shares issued for `base_in` base units at NAV `nav`: `floor(base_in / nav)`.
pub open spec fn shares_for(base_in: int, nav: int) -> int {
    q_div(base_in, nav)
}

/// Base units paid out for `shares` shares at NAV `nav`: `floor(shares * nav)`.
pub open spec fn base_for(shares: int, nav: int) -> int {
    q_mul(shares, nav)
}

/// Debt (Q64.64) of a holder of `shares` shares who is settled at accumulator `acc`.
pub open spec fn settled_debt(shares: int, acc: int) -> int {
    saturate(shares * acc)
}

/// Dividends, in base units, owed to a holder of `shares` shares with debt `debt`
/// at accumulator `acc`.
pub open spec fn pending_dividends(shares: int, acc: int, debt: int) -> int {
    monus(settled_debt(shares, acc), debt) / (Q64_ONE as int)
}

/// The accumulator after `amount` base units are spread over `supply` shares.
pub open spec fn accumulate(acc: int, amount: int, supply: int) -> int {
    saturate(acc + q_div(amount, supply))
}

/// The debt of a position after `shares` new shares are issued at accumulator `acc`.
pub open spec fn debt_after_issue(debt: int, shares: int, acc: int) -> int {
    saturate(debt + settled_debt(shares, acc))
}

/// Accounts of a basket's creation, as plain values.
#[derive(Debug, Clone, Copy)]
pub struct CreateBasket {
    pub admin: Pubkey,
    pub base_mint: Pubkey,
    pub basket_mint: Pubkey,
    pub base_vault: Pubkey,
    /// Bump seed of the basket's derived address.
    pub bump: u8,
    /// The current instant, in seconds since the Unix epoch.
    pub now: i64,
}

/// Accounts of an admin-only operation: the signer, the basket, and the
/// circulating supply of the basket's shares.
#[derive(Debug, Clone, Copy)]
pub struct AdminOnly {
    pub admin: Pubkey,
    pub basket: Basket,
    pub basket_mint_supply: u64,
}

/// Accounts of a share issuance.
#[derive(Debug, Clone, Copy)]
pub struct MintShares {
    pub payer: Pubkey,
    /// Address of the basket record.
    pub basket_key: Pubkey,
    pub basket: Basket,
    pub user_position: UserPosition,
}

/// Accounts of a redemption.
#[derive(Debug, Clone, Copy)]
pub struct RedeemShares {
    pub payer: Pubkey,
    pub basket: Basket,
}

/// Accounts of a dividend claim: the payer's position and the shares it holds.
#[derive(Debug, Clone, Copy)]
pub struct Claim {
    pub payer: Pubkey,
    pub basket: Basket,
    pub shares_held: u64,
    pub user_position: UserPosition,
}

/// Time-based management-fee accrual. No fee is charged yet: the basket is
/// left as it is.
fn accrue_fees(b: &mut Basket) -> (r: Result<(), BasketError>)
    ensures
        r is Ok,
        *final(b) == *old(b),
{
    Ok(())
}

/// User deposits `base_in` base units and receives basket shares priced at the
/// current NAV. On success the host moves `base_in` base units from the payer
/// to the vault and mints the returned number of shares to the payer.
pub fn mint_shares(ctx: &mut MintShares, base_in: u64, min_shares_out: u64) -> (r: Result<
    u64,
    BasketError,
>)
    ensures
        old(ctx).basket.paused ==> r == Err::<u64, BasketError>(BasketError::Paused),
        !old(ctx).basket.paused && old(ctx).basket.nav_per_share_q64 == 0 ==> r == Err::<
            u64,
            BasketError,
        >(BasketError::StaleOracle),
        !old(ctx).basket.paused && old(ctx).basket.nav_per_share_q64 > 0 && shares_for(
            base_in as int,
            old(ctx).basket.nav_per_share_q64 as int,
        ) > u64::MAX ==> r == Err::<u64, BasketError>(BasketError::ArithmeticOverflow),
        !old(ctx).basket.paused && old(ctx).basket.nav_per_share_q64 > 0 && shares_for(
            base_in as int,
            old(ctx).basket.nav_per_share_q64 as int,
        ) < min_shares_out ==> r == Err::<u64, BasketError>(BasketError::SlippageExceeded),
        !old(ctx).basket.paused && old(ctx).basket.nav_per_share_q64 > 0 && min_shares_out
            <= shares_for(base_in as int, old(ctx).basket.nav_per_share_q64 as int) <= u64::MAX
            ==> r == Ok::<u64, BasketError>(
            shares_for(base_in as int, old(ctx).basket.nav_per_share_q64 as int) as u64,
        ),
        r is Err ==> *final(ctx) == *old(ctx),
        r is Ok ==> {
            &&& final(ctx).payer == old(ctx).payer
            &&& final(ctx).basket_key == old(ctx).basket_key
            &&& final(ctx).basket == old(ctx).basket
            &&& final(ctx).user_position.owner == old(ctx).payer
            &&& final(ctx).user_position.basket == old(ctx).basket_key
            &&& final(ctx).user_position.div_debt_q64 == debt_after_issue(
                old(ctx).user_position.div_debt_q64 as int,
                r->Ok_0 as int,
                old(ctx).basket.acc_div_per_share_q64 as int,
            )
        },
{
    if ctx.basket.paused {
        return Err(BasketError::Paused);
    }
    match accrue_fees(&mut ctx.basket) {
        Ok(()) => {},
        Err(e) => {
            return Err(e);
        },
    }
    let nav_q64 = ctx.basket.nav_per_share_q64;
    if nav_q64 == 0 {
        return Err(BasketError::StaleOracle);
    }
    // base_in < 2^64, so the scaled dividend always fits.
    let shares_out = match qdiv(base_in as u128, nav_q64) {
        Ok(s) => s,
        Err(e) => {
            return Err(e);
        },
    };
    if shares_out > u64::MAX as u128 {
        return Err(BasketError::ArithmeticOverflow);
    }
    if (shares_out as u64) < min_shares_out {
        return Err(BasketError::SlippageExceeded);
    }
    let acc = ctx.basket.acc_div_per_share_q64;
    let added = saturating_mul_u128(shares_out, acc);
    ctx.user_position.owner = ctx.payer;
    ctx.user_position.basket = ctx.basket_key;
    ctx.user_position.div_debt_q64 = ctx.user_position.div_debt_q64.saturating_add(added);
    Ok(shares_out as u64)
}

/// User burns `shares_in` shares and receives base units at the current NAV.
/// On success the host burns `shares_in` shares of the payer and moves the
/// returned number of base units from the vault to the payer. A payout that
/// does not fit 64 bits is refused rather than truncated.
pub fn redeem_shares(ctx: &mut RedeemShares, shares_in: u64, min_base_out: u64) -> (r: Result<
    u64,
    BasketError,
>)
    ensures
        *final(ctx) == *old(ctx),
        old(ctx).basket.paused ==> r == Err::<u64, BasketError>(BasketError::Paused),
        !old(ctx).basket.paused && old(ctx).basket.nav_per_share_q64 == 0 ==> r == Err::<
            u64,
            BasketError,
        >(BasketError::StaleOracle),
        !old(ctx).basket.paused && old(ctx).basket.nav_per_share_q64 > 0 && (shares_in
            * old(ctx).basket.nav_per_share_q64 > u128::MAX || base_for(
            shares_in as int,
            old(ctx).basket.nav_per_share_q64 as int,
        ) > u64::MAX) ==> r == Err::<u64, BasketError>(BasketError::ArithmeticOverflow),
        !old(ctx).basket.paused && old(ctx).basket.nav_per_share_q64 > 0 && shares_in
            * old(ctx).basket.nav_per_share_q64 <= u128::MAX && base_for(
            shares_in as int,
            old(ctx).basket.nav_per_share_q64 as int,
        ) < min_base_out ==> r == Err::<u64, BasketError>(BasketError::SlippageExceeded),
        !old(ctx).basket.paused && old(ctx).basket.nav_per_share_q64 > 0 && shares_in
            * old(ctx).basket.nav_per_share_q64 <= u128::MAX && min_base_out <= base_for(
            shares_in as int,
            old(ctx).basket.nav_per_share_q64 as int,
        ) <= u64::MAX ==> r == Ok::<u64, BasketError>(
            base_for(shares_in as int, old(ctx).basket.nav_per_share_q64 as int) as u64,
        ),
{
    if ctx.basket.paused {
        return Err(BasketError::Paused);
    }
    match accrue_fees(&mut ctx.basket) {
        Ok(()) => {},
        Err(e) => {
            return Err(e);
        },
    }
    let nav_q64 = ctx.basket.nav_per_share_q64;
    if nav_q64 == 0 {
        return Err(BasketError::StaleOracle);
    }
    let base_out = match qmul(shares_in as u128, nav_q64) {
        Ok(b) => b,
        Err(e) => {
            return Err(e);
        },
    };
    if base_out > u64::MAX as u128 {
        return Err(BasketError::ArithmeticOverflow);
    }
    if (base_out as u64) < min_base_out {
        return Err(BasketError::SlippageExceeded);
    }
    Ok(base_out as u64)
}

/// Admin deposits `amount` base units of dividends, spread over the circulating
/// shares. On success the host moves `amount` base units from the admin to the
/// vault. The accumulator saturates rather than wraps.
pub fn deposit_dividends(ctx: &mut AdminOnly, amount: u64) -> (r: Result<(), BasketError>)
    ensures
        old(ctx).admin != old(ctx).basket.admin ==> r == Err::<(), BasketError>(
            BasketError::Unauthorized,
        ),
        old(ctx).admin == old(ctx).basket.admin && old(ctx).basket_mint_supply == 0 ==> r
            == Err::<(), BasketError>(BasketError::NoSupply),
        old(ctx).admin == old(ctx).basket.admin && old(ctx).basket_mint_supply > 0 ==> r
            == Ok::<(), BasketError>(()),
        r is Err ==> *final(ctx) == *old(ctx),
        r is Ok ==> *final(ctx) == (AdminOnly {
            basket: Basket {
                acc_div_per_share_q64: accumulate(
                    old(ctx).basket.acc_div_per_share_q64 as int,
                    amount as int,
                    old(ctx).basket_mint_supply as int,
                ) as u128,
                ..old(ctx).basket
            },
            ..*old(ctx)
        }),
        old(ctx).basket.acc_div_per_share_q64 <= final(ctx).basket.acc_div_per_share_q64,
{
    if ctx.admin != ctx.basket.admin {
        return Err(BasketError::Unauthorized);
    }
    let total_supply = ctx.basket_mint_supply;
    if total_supply == 0 {
        return Err(BasketError::NoSupply);
    }
    // amount < 2^64 and the supply is positive, so the division cannot fail.
    let add = match qdiv(amount as u128, total_supply as u128) {
        Ok(q) => q,
        Err(e) => {
            return Err(e);
        },
    };
    ctx.basket.acc_div_per_share_q64 = ctx.basket.acc_div_per_share_q64.saturating_add(add);
    Ok(())
}

/// Holder claims the dividends accrued on `shares_held` since the last
/// settlement; the debt is reset to the full settled value whatever is paid.
/// The host moves the returned number of base units from the vault to the
/// holder when it is positive.
pub fn claim_dividends(ctx: &mut Claim) -> (pending: u64)
    ensures
        pending == pending_dividends(
            old(ctx).shares_held as int,
            old(ctx).basket.acc_div_per_share_q64 as int,
            old(ctx).user_position.div_debt_q64 as int,
        ),
        *final(ctx) == (Claim {
            user_position: UserPosition {
                div_debt_q64: settled_debt(
                    old(ctx).shares_held as int,
                    old(ctx).basket.acc_div_per_share_q64 as int,
                ) as u128,
                ..old(ctx).user_position
            },
            ..*old(ctx)
        }),
{
    let shares = ctx.shares_held as u128;
    let acc = ctx.basket.acc_div_per_share_q64;
    let accrued = saturating_mul_u128(shares, acc);
    let pending_q64 = accrued.saturating_sub(ctx.user_position.div_debt_q64);
    let pending = pending_q64 / Q64_ONE;
    proof {
        assert(pending_q64 / Q64_ONE <= u64::MAX) by (nonlinear_arith)
            requires
                pending_q64 <= u128::MAX,
                Q64_ONE == 0x1_0000_0000_0000_0000u128,
        ;
    }
    ctx.user_position.div_debt_q64 = accrued;
    pending as u64
}

/// Sets the NAV per share of `basket` for `caller`. Only the basket's admin may
/// do so; where `reject_when_paused` holds, a paused basket refuses the update
/// too. The value is taken as it is: there is no bound on its size or change.
pub fn update_nav(basket: &mut Basket, caller: &Pubkey, nav_per_share_q64: u128, reject_when_paused: bool) -> (r: Result<(), BasketError>)
    ensures
        *caller != old(basket).admin ==> r == Err::<(), BasketError>(BasketError::Unauthorized),
        *caller == old(basket).admin && reject_when_paused && old(basket).paused ==> r
            == Err::<(), BasketError>(BasketError::Paused),
        *caller == old(basket).admin && !(reject_when_paused && old(basket).paused) ==> r
            == Ok::<(), BasketError>(()),
        r is Err ==> *final(basket) == *old(basket),
        r is Ok ==> *final(basket) == (Basket { nav_per_share_q64, ..*old(basket) }),
{
    if *caller != basket.admin {
        return Err(BasketError::Unauthorized);
    }
    if reject_when_paused && basket.paused {
        return Err(BasketError::Paused);
    }
    basket.nav_per_share_q64 = nav_per_share_q64;
    Ok(())
}

/// Admin sets the NAV per share (Q64.64) directly. This path refuses a paused
/// basket.
pub fn admin_set_nav_q64(ctx: &mut AdminOnly, nav_per_share_q64: u128) -> (r: Result<(), BasketError>)
    ensures
        old(ctx).admin != old(ctx).basket.admin ==> r == Err::<(), BasketError>(
            BasketError::Unauthorized,
        ),
        old(ctx).admin == old(ctx).basket.admin && old(ctx).basket.paused ==> r == Err::<
            (),
            BasketError,
        >(BasketError::Paused),
        old(ctx).admin == old(ctx).basket.admin && !old(ctx).basket.paused ==> r == Ok::<
            (),
            BasketError,
        >(()),
        r is Err ==> *final(ctx) == *old(ctx),
        r is Ok ==> *final(ctx) == (AdminOnly {
            basket: Basket { nav_per_share_q64, ..old(ctx).basket },
            ..*old(ctx)
        }),
{
    let caller = ctx.admin;
    update_nav(&mut ctx.basket, &caller, nav_per_share_q64, true)
}

/// Admin sets or clears the pause flag; nothing else changes.
pub fn set_pause(ctx: &mut AdminOnly, paused: bool) -> (r: Result<(), BasketError>)
    ensures
        old(ctx).admin != old(ctx).basket.admin ==> r == Err::<(), BasketError>(
            BasketError::Unauthorized,
        ),
        old(ctx).admin == old(ctx).basket.admin ==> r == Ok::<(), BasketError>(()),
        r is Err ==> *final(ctx) == *old(ctx),
        r is Ok ==> *final(ctx) == (AdminOnly {
            basket: Basket { paused, ..old(ctx).basket },
            ..*old(ctx)
        }),
{
    if ctx.admin != ctx.basket.admin {
        return Err(BasketError::Unauthorized);
    }
    ctx.basket.paused = paused;
    Ok(())
}

/// A new basket owned by the signer: no NAV yet, an empty dividend
/// accumulator, not paused, and the fee clock started now.
pub fn create_basket(ctx: &CreateBasket, mgmt_fee_bps: u16) -> (b: Basket)
    ensures
        b == (Basket {
            admin: ctx.admin,
            base_mint: ctx.base_mint,
            basket_mint: ctx.basket_mint,
            base_vault: ctx.base_vault,
            mgmt_fee_bps,
            paused: false,
            last_fee_ts: ctx.now,
            nav_per_share_q64: 0,
            acc_div_per_share_q64: 0,
            bump: ctx.bump,
        }),
{
    Basket {
        admin: ctx.admin,
        base_mint: ctx.base_mint,
        basket_mint: ctx.basket_mint,
        base_vault: ctx.base_vault,
        mgmt_fee_bps,
        paused: false,
        last_fee_ts: ctx.now,
        nav_per_share_q64: 0,
        acc_div_per_share_q64: 0,
        bump: ctx.bump,
    }
}

} // verus!
