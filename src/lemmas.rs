//! Facts about the accounting rules that hold across several operations.
use vstd::arithmetic::div_mod::{lemma_div_pos_is_pos, lemma_fundamental_div_mod, lemma_mod_bound};
use vstd::prelude::*;

use crate::basket::{accumulate, base_for, debt_after_issue, pending_dividends, settled_debt, shares_for};
use crate::fixed::Q64_ONE;

verus! {

/// The accumulator after a sequence of dividend deposits, each given as
/// `(amount, circulating supply)`. A deposit against no supply is refused and
/// leaves the accumulator as it was.
pub open spec fn acc_after_deposits(acc: int, deposits: Seq<(u64, u64)>) -> int
    decreases deposits.len(),
{
    if deposits.len() == 0 {
        acc
    } else {
        let (amount, supply) = deposits[0];
        let next = if supply == 0 {
            acc
        } else {
            accumulate(acc, amount as int, supply as int)
        };
        acc_after_deposits(next, deposits.drop_first())
    }
}

/// Dividend deposits never lower the accumulator, whatever their order and
/// amounts, and it never leaves the range of a `u128`.
pub proof fn lemma_accumulator_monotone(acc: u128, deposits: Seq<(u64, u64)>)
    ensures
        acc <= acc_after_deposits(acc as int, deposits) <= u128::MAX,
    decreases deposits.len(),
{
    if deposits.len() > 0 {
        let (amount, supply) = deposits[0];
        if supply == 0 {
            lemma_accumulator_monotone(acc, deposits.drop_first());
        } else {
            let n: int = amount as int * (Q64_ONE as int);
            lemma_div_pos_is_pos(n, supply as int);
            let next = accumulate(acc as int, amount as int, supply as int);
            lemma_accumulator_monotone(next as u128, deposits.drop_first());
        }
    }
}

/// Issuing new shares does not change what a holder can claim: the debt grows
/// by exactly what the new shares would accrue at the current accumulator. In
/// particular a holder who was settled (a new one among them) has nothing to
/// claim right after an issuance. This holds while the products involved fit
/// in 128 bits.
pub proof fn lemma_issue_then_claim(held: u64, issued: u64, acc: u128, debt: u128)
    requires
        held + issued <= u64::MAX,
        (held + issued) * acc <= u128::MAX,
        debt + issued * acc <= u128::MAX,
    ensures
        pending_dividends(
            held + issued,
            acc as int,
            debt_after_issue(debt as int, issued as int, acc as int),
        ) == pending_dividends(held as int, acc as int, debt as int),
        debt == settled_debt(held as int, acc as int) ==> pending_dividends(
            held + issued,
            acc as int,
            debt_after_issue(debt as int, issued as int, acc as int),
        ) == 0,
{
    assert((held + issued) * acc == held * acc + issued * acc) by (nonlinear_arith);
    assert(0 <= held * acc && 0 <= issued * acc) by (nonlinear_arith);
}

/// A claim settles the holder: claiming again with the same shares and
/// accumulator yields nothing.
pub proof fn lemma_claim_settles(held: u64, acc: u128)
    ensures
        pending_dividends(held as int, acc as int, settled_debt(held as int, acc as int)) == 0,
{
}

/// Issuing shares for `base_in` and redeeming them at the same NAV never pays
/// out more than was put in, and loses less than one share's worth plus one
/// base unit to truncation. The redemption's product always fits.
pub proof fn lemma_round_trip(base_in: u64, nav: u128)
    requires
        nav > 0,
        shares_for(base_in as int, nav as int) <= u64::MAX,
    ensures
        shares_for(base_in as int, nav as int) * nav <= u128::MAX,
        base_for(shares_for(base_in as int, nav as int), nav as int) <= base_in,
        (base_in - base_for(shares_for(base_in as int, nav as int), nav as int)) * (
        Q64_ONE as int) < nav + Q64_ONE,
{
    let q: int = Q64_ONE as int;
    let n: int = base_in as int * q;
    let s: int = shares_for(base_in as int, nav as int);
    assert(s == n / (nav as int));
    lemma_fundamental_div_mod(n, nav as int);
    lemma_mod_bound(n, nav as int);
    lemma_div_pos_is_pos(n, nav as int);
    let p: int = s * nav;
    assert(p == n - n % (nav as int)) by (nonlinear_arith)
        requires
            n == (nav as int) * (n / (nav as int)) + n % (nav as int),
            s == n / (nav as int),
            p == s * nav,
    ;
    assert(p >= 0);
    let base: int = p / q;
    assert(base == base_for(s, nav as int));
    lemma_fundamental_div_mod(p, q);
    lemma_mod_bound(p, q);
}

} // verus!
