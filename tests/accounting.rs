use basket::{
    admin_set_nav_q64, claim_dividends, create_basket, deposit_dividends, mint_shares, qdiv,
    qmul, redeem_shares, saturating_mul_u128, set_kyc, set_nav, set_pause, update_nav, AdminOnly,
    Basket, BasketError, Claim, CreateBasket, KycRecord, MintShares, OracleError, Pubkey,
    RedeemShares, SetKyc, SetNav, UserPosition, Q64_ONE,
};

fn key(b: u8) -> Pubkey {
    Pubkey::new_from_array([b; 32])
}

fn new_basket(nav: u128) -> Basket {
    let ctx = CreateBasket {
        admin: key(1),
        base_mint: key(2),
        basket_mint: key(3),
        base_vault: key(4),
        bump: 254,
        now: 1_700_000_000,
    };
    let mut b = create_basket(&ctx, 50);
    b.nav_per_share_q64 = nav;
    b
}

fn empty_position() -> UserPosition {
    UserPosition { owner: key(0), basket: key(0), div_debt_q64: 0 }
}

fn mint(b: Basket, pos: UserPosition, base_in: u64, min: u64) -> (Result<u64, BasketError>, MintShares) {
    let mut ctx = MintShares { payer: key(9), basket_key: key(8), basket: b, user_position: pos };
    let r = mint_shares(&mut ctx, base_in, min);
    (r, ctx)
}

fn redeem(b: Basket, shares_in: u64, min: u64) -> Result<u64, BasketError> {
    let mut ctx = RedeemShares { payer: key(9), basket: b };
    redeem_shares(&mut ctx, shares_in, min)
}

fn claim(b: Basket, shares_held: u64, pos: UserPosition) -> (u64, Claim) {
    let mut ctx = Claim { payer: key(9), basket: b, shares_held, user_position: pos };
    let p = claim_dividends(&mut ctx);
    (p, ctx)
}

#[test]
fn fixed_point_primitives() {
    assert_eq!(qmul(6, 5 * Q64_ONE / 2), Ok(15));
    // Two Q64.64 operands of 3.0 and 2.5: the full product needs more than 128 bits.
    assert_eq!(qmul(3 * Q64_ONE, 5 * Q64_ONE / 2), Err(BasketError::ArithmeticOverflow));
    assert_eq!(qmul(7, Q64_ONE / 2), Ok(3));
    assert_eq!(qmul(u128::MAX, 2), Err(BasketError::ArithmeticOverflow));
    assert_eq!(qdiv(400, 400), Ok(Q64_ONE));
    assert_eq!(qdiv(1, 3), Ok(Q64_ONE / 3));
    assert_eq!(qdiv(5, 0), Err(BasketError::DivisionByZero));
    assert_eq!(qdiv(Q64_ONE, 1), Err(BasketError::ArithmeticOverflow));
    assert_eq!(saturating_mul_u128(u128::MAX, 2), u128::MAX);
    assert_eq!(saturating_mul_u128(6, 7), 42);
}

#[test]
fn create_basket_starts_unpriced_and_unpaused() {
    let b = new_basket(0);
    assert_eq!(b.admin, key(1));
    assert_eq!(b.base_vault, key(4));
    assert_eq!(b.mgmt_fee_bps, 50);
    assert_eq!(b.last_fee_ts, 1_700_000_000);
    assert_eq!(b.bump, 254);
    assert!(!b.paused);
    assert_eq!(b.nav_per_share_q64, 0);
    assert_eq!(b.acc_div_per_share_q64, 0);
    assert_eq!(Basket::SIZE, 172);
    assert_eq!(UserPosition::SIZE, 80);
    assert_eq!(KycRecord::SIZE, 65);
}

#[test]
fn mint_at_nav_two_halves_the_shares() {
    let (r, ctx) = mint(new_basket(2 * Q64_ONE), empty_position(), 1000, 0);
    assert_eq!(r, Ok(500));
    assert_eq!(ctx.user_position.owner, key(9));
    assert_eq!(ctx.user_position.basket, key(8));
    assert_eq!(ctx.user_position.div_debt_q64, 0);
}

#[test]
fn mint_slippage_one_above_output_fails() {
    let b = new_basket(Q64_ONE);
    let (r, ctx) = mint(b, empty_position(), 1000, 1001);
    assert_eq!(r, Err(BasketError::SlippageExceeded));
    assert_eq!(ctx.user_position, empty_position());
    let (r, _) = mint(b, empty_position(), 1000, 1000);
    assert_eq!(r, Ok(1000));
    // NAV 3.0: 1000 / 3 truncates to 333.
    let b3 = new_basket(3 * Q64_ONE);
    assert_eq!(mint(b3, empty_position(), 1000, 334).0, Err(BasketError::SlippageExceeded));
    assert_eq!(mint(b3, empty_position(), 1000, 333).0, Ok(333));
}

#[test]
fn mint_and_redeem_refused_while_paused() {
    let mut b = new_basket(Q64_ONE);
    b.paused = true;
    assert_eq!(mint(b, empty_position(), 1000, 0).0, Err(BasketError::Paused));
    assert_eq!(redeem(b, 1000, 0), Err(BasketError::Paused));
    b.nav_per_share_q64 = 0;
    assert_eq!(mint(b, empty_position(), 0, u64::MAX).0, Err(BasketError::Paused));
    assert_eq!(redeem(b, u64::MAX, u64::MAX), Err(BasketError::Paused));
}

#[test]
fn mint_and_redeem_need_a_nav() {
    let b = new_basket(0);
    assert_eq!(mint(b, empty_position(), 1000, 0).0, Err(BasketError::StaleOracle));
    assert_eq!(redeem(b, 1000, 0), Err(BasketError::StaleOracle));
}

#[test]
fn mint_too_many_shares_overflows() {
    let b = new_basket(Q64_ONE / 4);
    assert_eq!(mint(b, empty_position(), u64::MAX, 0).0, Err(BasketError::ArithmeticOverflow));
}

#[test]
fn mint_charges_debt_at_current_accumulator() {
    let mut b = new_basket(Q64_ONE);
    b.acc_div_per_share_q64 = 3 * Q64_ONE;
    let pos = UserPosition { owner: key(0), basket: key(0), div_debt_q64: 7 };
    let (r, ctx) = mint(b, pos, 10, 0);
    assert_eq!(r, Ok(10));
    assert_eq!(ctx.user_position.div_debt_q64, 7 + 30 * Q64_ONE);
    assert_eq!(ctx.basket, b);
}

#[test]
fn redeem_pays_at_nav() {
    let b = new_basket(Q64_ONE + Q64_ONE / 2);
    assert_eq!(redeem(b, 100, 0), Ok(150));
    assert_eq!(redeem(b, 100, 151), Err(BasketError::SlippageExceeded));
    assert_eq!(redeem(b, 100, 150), Ok(150));
    assert_eq!(redeem(b, 3, 0), Ok(4));
}

#[test]
fn redeem_overflows() {
    assert_eq!(redeem(new_basket(u128::MAX), 2, 0), Err(BasketError::ArithmeticOverflow));
    assert_eq!(redeem(new_basket(4 * Q64_ONE), u64::MAX, 0), Err(BasketError::ArithmeticOverflow));
}

#[test]
fn round_trip_never_gains() {
    for nav in [Q64_ONE, 3 * Q64_ONE, Q64_ONE + 12345, 7 * Q64_ONE / 3] {
        let b = new_basket(nav);
        for base_in in [1u64, 999, 1000, 123_456_789] {
            let (shares, _) = mint(b, empty_position(), base_in, 0);
            let out = redeem(b, shares.unwrap(), 0).unwrap();
            assert!(out <= base_in);
            assert!(((base_in - out) as u128) * Q64_ONE < nav + Q64_ONE);
        }
    }
}

#[test]
fn dividend_fairness_two_holders() {
    let b = new_basket(Q64_ONE);
    let mut ctx = AdminOnly { admin: key(1), basket: b, basket_mint_supply: 400 };
    assert_eq!(deposit_dividends(&mut ctx, 400), Ok(()));
    assert_eq!(ctx.basket.acc_div_per_share_q64, Q64_ONE);
    let (a, _) = claim(ctx.basket, 100, empty_position());
    let (c, _) = claim(ctx.basket, 300, empty_position());
    assert_eq!(a, 100);
    assert_eq!(c, 300);
    assert_eq!(a + c, 400);
}

#[test]
fn deposit_dividends_errors() {
    let b = new_basket(Q64_ONE);
    let mut ctx = AdminOnly { admin: key(1), basket: b, basket_mint_supply: 0 };
    assert_eq!(deposit_dividends(&mut ctx, 400), Err(BasketError::NoSupply));
    assert_eq!(ctx.basket, b);
    let mut ctx = AdminOnly { admin: key(5), basket: b, basket_mint_supply: 400 };
    assert_eq!(deposit_dividends(&mut ctx, 400), Err(BasketError::Unauthorized));
    assert_eq!(ctx.basket, b);
}

#[test]
fn accumulator_never_decreases_and_saturates() {
    let b = new_basket(Q64_ONE);
    let mut ctx = AdminOnly { admin: key(1), basket: b, basket_mint_supply: 3 };
    let mut last = 0u128;
    for amount in [0u64, 1, 10, 0, 1_000_000] {
        deposit_dividends(&mut ctx, amount).unwrap();
        assert!(ctx.basket.acc_div_per_share_q64 >= last);
        last = ctx.basket.acc_div_per_share_q64;
    }
    assert_eq!(last, (1_000_011u128 << 64) / 3 - 1);
    ctx.basket.acc_div_per_share_q64 = u128::MAX - 5;
    ctx.basket_mint_supply = 1;
    deposit_dividends(&mut ctx, 1).unwrap();
    assert_eq!(ctx.basket.acc_div_per_share_q64, u128::MAX);
}

#[test]
fn issue_then_claim_owes_nothing() {
    let mut b = new_basket(Q64_ONE);
    b.acc_div_per_share_q64 = 5 * Q64_ONE;
    let (r, ctx) = mint(b, empty_position(), 200, 0);
    assert_eq!(r, Ok(200));
    let (pending, _) = claim(b, 200, ctx.user_position);
    assert_eq!(pending, 0);
}

#[test]
fn claim_twice_pays_once() {
    let mut b = new_basket(Q64_ONE);
    b.acc_div_per_share_q64 = Q64_ONE / 2;
    let (first, ctx) = claim(b, 9, empty_position());
    assert_eq!(first, 4);
    assert_eq!(ctx.user_position.div_debt_q64, 9 * (Q64_ONE / 2));
    let (second, _) = claim(b, 9, ctx.user_position);
    assert_eq!(second, 0);
}

#[test]
fn claim_resyncs_debt_when_nothing_is_owed() {
    let mut b = new_basket(Q64_ONE);
    b.acc_div_per_share_q64 = Q64_ONE;
    let pos = UserPosition { owner: key(0), basket: key(0), div_debt_q64: 50 * Q64_ONE };
    let (p, ctx) = claim(b, 10, pos);
    assert_eq!(p, 0);
    assert_eq!(ctx.user_position.div_debt_q64, 10 * Q64_ONE);
}

#[test]
fn set_nav_and_pause_need_the_admin() {
    let b = new_basket(Q64_ONE);
    let mut ctx = AdminOnly { admin: key(7), basket: b, basket_mint_supply: 1 };
    assert_eq!(admin_set_nav_q64(&mut ctx, 5), Err(BasketError::Unauthorized));
    assert_eq!(set_pause(&mut ctx, true), Err(BasketError::Unauthorized));
    assert_eq!(ctx.basket, b);
    let mut oracle = SetNav { admin: key(7), basket: b };
    assert_eq!(set_nav(&mut oracle, 5), Err(OracleError::Unauthorized));
    assert_eq!(oracle.basket, b);
}

#[test]
fn admin_updates_nav_and_pause() {
    let b = new_basket(Q64_ONE);
    let mut ctx = AdminOnly { admin: key(1), basket: b, basket_mint_supply: 1 };
    assert_eq!(admin_set_nav_q64(&mut ctx, 2 * Q64_ONE), Ok(()));
    assert_eq!(ctx.basket.nav_per_share_q64, 2 * Q64_ONE);
    assert_eq!(set_pause(&mut ctx, true), Ok(()));
    assert!(ctx.basket.paused);
    assert_eq!(admin_set_nav_q64(&mut ctx, 3 * Q64_ONE), Err(BasketError::Paused));
    assert_eq!(ctx.basket.nav_per_share_q64, 2 * Q64_ONE);
    // The oracle path accepts an update on a paused basket.
    let mut oracle = SetNav { admin: key(1), basket: ctx.basket };
    assert_eq!(set_nav(&mut oracle, 3 * Q64_ONE), Ok(()));
    assert_eq!(oracle.basket.nav_per_share_q64, 3 * Q64_ONE);
    assert!(oracle.basket.paused);
    assert_eq!(set_pause(&mut ctx, false), Ok(()));
    assert!(!ctx.basket.paused);
}

#[test]
fn update_nav_pause_policy() {
    let mut b = new_basket(Q64_ONE);
    b.paused = true;
    let mut strict = b;
    assert_eq!(update_nav(&mut strict, &key(1), 9, true), Err(BasketError::Paused));
    assert_eq!(strict, b);
    let mut lenient = b;
    assert_eq!(update_nav(&mut lenient, &key(1), 9, false), Ok(()));
    assert_eq!(lenient.nav_per_share_q64, 9);
    assert_eq!(update_nav(&mut lenient, &key(2), 10, false), Err(BasketError::Unauthorized));
    assert_eq!(lenient.nav_per_share_q64, 9);
}

#[test]
fn set_kyc_records_the_signer() {
    let mut ctx = SetKyc {
        admin: key(1),
        kyc_record: KycRecord { admin: key(0), user: key(0), allowed: false },
    };
    set_kyc(&mut ctx, key(6), true);
    assert_eq!(ctx.kyc_record, KycRecord { admin: key(1), user: key(6), allowed: true });
    set_kyc(&mut ctx, key(6), false);
    assert!(!ctx.kyc_record.allowed);
}

#[test]
fn pubkey_equality_is_by_bytes() {
    let mut bytes = [3u8; 32];
    assert_eq!(Pubkey::new_from_array(bytes), key(3));
    bytes[31] = 4;
    assert_ne!(Pubkey::new_from_array(bytes), key(3));
    assert_eq!(Pubkey::new_from_array(bytes).to_bytes(), bytes);
}
