//! Checked integer arithmetic: every function here either returns the exact mathematical result
//! or reports `MathError`; nothing wraps, saturates or panics.

use crate::error::ErrorCode;
use vstd::arithmetic::div_mod::lemma_fundamental_div_mod_converse;
use vstd::arithmetic::power::pow;
use vstd::prelude::*;

verus! {

/// `x` as a `u128`, or `MathError` when it is out of range.
pub open spec fn to_u128(x: int) -> Result<u128, ErrorCode> {
    if 0 <= x <= u128::MAX {
        Ok(x as u128)
    } else {
        Err(ErrorCode::MathError)
    }
}

/// `x` as a `u64`, or `MathError` when it is out of range.
pub open spec fn to_u64(x: int) -> Result<u64, ErrorCode> {
    if 0 <= x <= u64::MAX {
        Ok(x as u64)
    } else {
        Err(ErrorCode::MathError)
    }
}

/// `x` as a `u32`, or `MathError` when it is out of range.
pub open spec fn to_u32(x: int) -> Result<u32, ErrorCode> {
    if 0 <= x <= u32::MAX {
        Ok(x as u32)
    } else {
        Err(ErrorCode::MathError)
    }
}

/// `x` as an `i64`, or `MathError` when it is out of range.
pub open spec fn to_i64(x: int) -> Result<i64, ErrorCode> {
    if i64::MIN <= x <= i64::MAX {
        Ok(x as i64)
    } else {
        Err(ErrorCode::MathError)
    }
}

/// `a / b` as a `u128`, or `MathError` when `b` is zero.
pub open spec fn div_u128(a: u128, b: u128) -> Result<u128, ErrorCode> {
    if b == 0 {
        Err(ErrorCode::MathError)
    } else {
        Ok(a / b)
    }
}

/// `value * numerator / denominator`, rounded down, for a positive `denominator`.
#[verifier::opaque]
pub open spec fn mul_div(value: int, numerator: int, denominator: int) -> int {
    (value * numerator) / denominator
}

/// A proportion of a non-negative value is not negative.
pub proof fn lemma_mul_div_nonnegative(value: int, numerator: int, denominator: int)
    requires
        value >= 0,
        numerator >= 0,
        denominator > 0,
    ensures
        mul_div(value, numerator, denominator) >= 0,
{
    reveal(mul_div);
    assert((value * numerator) / denominator >= 0) by (nonlinear_arith)
        requires
            value >= 0,
            numerator >= 0,
            denominator > 0,
    ;
}

/// A part is no more than the whole: with `numerator <= denominator` the proportion is at most
/// `value`.
pub proof fn lemma_mul_div_part(value: int, numerator: int, denominator: int)
    requires
        value >= 0,
        0 <= numerator <= denominator,
        denominator > 0,
    ensures
        0 <= mul_div(value, numerator, denominator) <= value,
{
    reveal(mul_div);
    assert(0 <= (value * numerator) / denominator <= value) by (nonlinear_arith)
        requires
            value >= 0,
            0 <= numerator <= denominator,
            denominator > 0,
    ;
}

/// With `numerator >= denominator` the proportion is at least `value`.
pub proof fn lemma_mul_div_grows(value: int, numerator: int, denominator: int)
    requires
        value >= 0,
        numerator >= denominator,
        denominator > 0,
    ensures
        mul_div(value, numerator, denominator) >= value,
{
    reveal(mul_div);
    assert((value * numerator) / denominator >= value) by (nonlinear_arith)
        requires
            value >= 0,
            numerator >= denominator,
            denominator > 0,
    ;
}

/// The proportion grows with the value.
pub proof fn lemma_mul_div_monotonic(a: int, b: int, numerator: int, denominator: int)
    requires
        0 <= a <= b,
        numerator >= 0,
        denominator > 0,
    ensures
        mul_div(a, numerator, denominator) <= mul_div(b, numerator, denominator),
{
    reveal(mul_div);
    assert((a * numerator) / denominator <= (b * numerator) / denominator) by (nonlinear_arith)
        requires
            0 <= a <= b,
            numerator >= 0,
            denominator > 0,
    ;
}

/// The proportion grows with the numerator.
pub proof fn lemma_mul_div_monotonic_numerator(value: int, a: int, b: int, denominator: int)
    requires
        value >= 0,
        0 <= a <= b,
        denominator > 0,
    ensures
        mul_div(value, a, denominator) <= mul_div(value, b, denominator),
{
    reveal(mul_div);
    assert((value * a) / denominator <= (value * b) / denominator) by (nonlinear_arith)
        requires
            value >= 0,
            0 <= a <= b,
            denominator > 0,
    ;
}

/// A product that the denominator divides is divided without remainder.
pub proof fn lemma_mul_div_exact(value: int, numerator: int, denominator: int, quotient: int)
    requires
        denominator > 0,
        value * numerator == quotient * denominator,
    ensures
        mul_div(value, numerator, denominator) == quotient,
{
    reveal(mul_div);
    lemma_fundamental_div_mod_converse(value * numerator, denominator, quotient, 0);
}

/// Two prices that are the same fraction give the same proportion: with
/// `b * c2 == b2 * c`, `a * b / c == a * b2 / c2`.
pub proof fn lemma_mul_div_same_price(a: int, b: int, c: int, b2: int, c2: int)
    requires
        a >= 0,
        b >= 0,
        b2 >= 0,
        c > 0,
        c2 > 0,
        b * c2 == b2 * c,
    ensures
        mul_div(a, b, c) == mul_div(a, b2, c2),
{
    reveal(mul_div);
    let q: int = (a * b) / c;
    let r: int = (a * b) % c;
    assert(a * b == q * c + r && 0 <= r < c) by (nonlinear_arith)
        requires
            q == (a * b) / c,
            r == (a * b) % c,
            c > 0,
    ;
    // a * b2 * c == a * b * c2 == q * c * c2 + r * c2, so a * b2 lies in [q * c2, (q + 1) * c2)
    assert(q * c2 <= a * b2 < (q + 1) * c2) by (nonlinear_arith)
        requires
            a * b == q * c + r,
            0 <= r < c,
            b * c2 == b2 * c,
            c > 0,
            c2 > 0,
            a >= 0,
    ;
    let r2: int = a * b2 - q * c2;
    assert(0 <= r2 < c2) by (nonlinear_arith)
        requires
            q * c2 <= a * b2 < (q + 1) * c2,
            r2 == a * b2 - q * c2,
    ;
    lemma_fundamental_div_mod_converse(a * b2, c2, q, r2);
}

/// The proportion does not depend on the order of its factors.
pub proof fn lemma_mul_div_commutes(value: int, numerator: int, denominator: int)
    ensures
        mul_div(value, numerator, denominator) == mul_div(numerator, value, denominator),
{
    reveal(mul_div);
    assert(value * numerator == numerator * value) by (nonlinear_arith);
}

/// Whole multiples of the denominator come out of the proportion whole: where
/// `value * rest == k * denominator`, the proportion of `part + rest` is that of `part`, and
/// `k` more.
pub proof fn lemma_mul_div_add_multiple(
    value: int,
    part: int,
    rest: int,
    denominator: int,
    k: int,
)
    requires
        denominator > 0,
        value * rest == k * denominator,
    ensures
        mul_div(value, part + rest, denominator) == mul_div(value, part, denominator) + k,
{
    reveal(mul_div);
    let a: int = value * part;
    assert(value * (part + rest) == a + k * denominator) by (nonlinear_arith)
        requires
            value * rest == k * denominator,
            a == value * part,
    ;
    assert((a + k * denominator) / denominator == a / denominator + k) by (nonlinear_arith)
        requires
            denominator > 0,
    ;
}

/// The whole of a value is the value: `value * d / d == value`.
pub proof fn lemma_mul_div_whole(value: int, denominator: int)
    requires
        denominator > 0,
    ensures
        mul_div(value, denominator, denominator) == value,
{
    reveal(mul_div);
    assert((value * denominator) / denominator == value) by (nonlinear_arith)
        requires
            denominator > 0,
    ;
}

/// `value * numerator / denominator`, rounded down, or `MathError` when `denominator` is zero
/// or the quotient does not fit in a `u128`.
pub open spec fn proportion(value: u128, numerator: u128, denominator: u128) -> Result<
    u128,
    ErrorCode,
> {
    if denominator == 0 {
        Err(ErrorCode::MathError)
    } else {
        to_u128(mul_div(value as int, numerator as int, denominator as int))
    }
}

pub fn safe_add_u128(a: u128, b: u128) -> (r: Result<u128, ErrorCode>)
    ensures
        r == to_u128(a + b),
{
    match a.checked_add(b) {
        Some(v) => Ok(v),
        None => Err(ErrorCode::MathError),
    }
}

pub fn safe_sub_u128(a: u128, b: u128) -> (r: Result<u128, ErrorCode>)
    ensures
        r == to_u128(a - b),
{
    match a.checked_sub(b) {
        Some(v) => Ok(v),
        None => Err(ErrorCode::MathError),
    }
}

pub fn safe_div_u128(a: u128, b: u128) -> (r: Result<u128, ErrorCode>)
    ensures
        r == div_u128(a, b),
{
    if b == 0 {
        Err(ErrorCode::MathError)
    } else {
        Ok(a / b)
    }
}

pub fn safe_add_u64(a: u64, b: u64) -> (r: Result<u64, ErrorCode>)
    ensures
        r == to_u64(a + b),
{
    match a.checked_add(b) {
        Some(v) => Ok(v),
        None => Err(ErrorCode::MathError),
    }
}

pub fn safe_sub_u64(a: u64, b: u64) -> (r: Result<u64, ErrorCode>)
    ensures
        r == to_u64(a - b),
{
    match a.checked_sub(b) {
        Some(v) => Ok(v),
        None => Err(ErrorCode::MathError),
    }
}

pub fn safe_add_u32(a: u32, b: u32) -> (r: Result<u32, ErrorCode>)
    ensures
        r == to_u32(a + b),
{
    match a.checked_add(b) {
        Some(v) => Ok(v),
        None => Err(ErrorCode::MathError),
    }
}

pub fn safe_add_i64(a: i64, b: i64) -> (r: Result<i64, ErrorCode>)
    ensures
        r == to_i64(a + b),
{
    match a.checked_add(b) {
        Some(v) => Ok(v),
        None => Err(ErrorCode::MathError),
    }
}

pub fn safe_sub_i64(a: i64, b: i64) -> (r: Result<i64, ErrorCode>)
    ensures
        r == to_i64(a - b),
{
    match a.checked_sub(b) {
        Some(v) => Ok(v),
        None => Err(ErrorCode::MathError),
    }
}

pub fn cast_u128_to_u64(x: u128) -> (r: Result<u64, ErrorCode>)
    ensures
        r == to_u64(x as int),
{
    if x <= 0xffff_ffff_ffff_ffff {
        Ok(x as u64)
    } else {
        Err(ErrorCode::MathError)
    }
}

pub fn cast_u128_to_i64(x: u128) -> (r: Result<i64, ErrorCode>)
    ensures
        r == to_i64(x as int),
{
    if x <= 0x7fff_ffff_ffff_ffff {
        Ok(x as i64)
    } else {
        Err(ErrorCode::MathError)
    }
}

pub fn cast_u64_to_i64(x: u64) -> (r: Result<i64, ErrorCode>)
    ensures
        r == to_i64(x as int),
{
    if x <= 0x7fff_ffff_ffff_ffff {
        Ok(x as i64)
    } else {
        Err(ErrorCode::MathError)
    }
}

proof fn lemma_quotient_at_least(x: int, y: int, d: int, q: int)
    by (nonlinear_arith)
    requires
        d > 0,
        x >= y,
        y >= q * d,
    ensures
        x / d >= q,
{
}

/// `value * numerator / denominator` when the product does not fit in a `u128`: the product is
/// built as a quotient and a remainder by `denominator`, one binary digit of `value` at a time.
fn mul_div_wide(value: u128, numerator: u128, denominator: u128) -> (res: Option<u128>)
    requires
        denominator > 0,
    ensures
        match res {
            Some(q) => q == mul_div(value as int, numerator as int, denominator as int),
            None => mul_div(value as int, numerator as int, denominator as int) > u128::MAX,
        },
{
    proof {
        reveal(mul_div);
    }
    // the digits of `value` that are still to come, the lowest first
    let mut rest: u128 = value;
    // quotient and remainder of `done * numerator`, where `done` is `value` as far as its
    // digits have been taken
    let mut q: u128 = 0;
    let mut r: u128 = 0;
    // quotient and remainder of `weight * numerator`, where `weight` is the place value of the
    // next digit
    let mut tq: u128 = numerator / denominator;
    let mut tr: u128 = numerator % denominator;
    let ghost mut done: int = 0;
    let ghost mut weight: int = 1;
    proof {
        assert(numerator == tq * denominator + tr) by (nonlinear_arith)
            requires
                denominator > 0,
                tq == numerator / denominator,
                tr == numerator % denominator,
        ;
    }
    while rest > 0
        invariant
            denominator > 0,
            mul_div(value as int, numerator as int, denominator as int) == (value * numerator)
                / (denominator as int),
            weight >= 1,
            done >= 0,
            value == rest * weight + done,
            done * numerator == q * denominator + r,
            weight * numerator == tq * denominator + tr,
            r < denominator,
            tr < denominator,
        decreases rest,
    {
        let bit: u128 = rest % 2;
        let ghost rest_before: int = rest as int;
        let ghost done_before: int = done;
        rest = rest / 2;
        assert(rest_before == 2 * rest + bit);
        assert(value == (2 * rest + bit) * weight + done) by (nonlinear_arith)
            requires
                value == rest_before * weight + done,
                rest_before == 2 * rest + bit,
        ;
        if bit == 1 {
            let carry: u128 = if r >= denominator - tr {
                1
            } else {
                0
            };
            let r_next: u128 = if r >= denominator - tr {
                r - (denominator - tr)
            } else {
                r + tr
            };
            proof {
                assert((done + weight) * numerator == (q + tq + carry) * denominator + r_next)
                    by (nonlinear_arith)
                    requires
                        done * numerator == q * denominator + r,
                        weight * numerator == tq * denominator + tr,
                        r + tr == carry * denominator + r_next,
                ;
                assert(value >= done + weight) by (nonlinear_arith)
                    requires
                        value == (2 * rest + 1) * weight + done,
                        rest >= 0,
                        weight >= 1,
                ;
            }
            let sum: Option<u128> = match q.checked_add(tq) {
                Some(s) => s.checked_add(carry),
                None => None,
            };
            match sum {
                Some(s) => {
                    q = s;
                    r = r_next;
                },
                None => {
                    proof {
                        let big: int = q + tq + carry;
                        assert(big * denominator + r_next >= big * denominator);
                        assert(value * numerator >= (done + weight) * numerator)
                            by (nonlinear_arith)
                            requires
                                value >= done + weight,
                                numerator >= 0,
                        ;
                        lemma_quotient_at_least(
                            value * numerator,
                            (done + weight) * numerator,
                            denominator as int,
                            big,
                        );
                    }
                    return None;
                },
            }
            proof {
                done = done + weight;
            }
        }
        assert(value == (2 * rest) * weight + done) by (nonlinear_arith)
            requires
                value == (2 * rest + bit) * weight + done_before,
                bit == 1 ==> done == done_before + weight,
                bit == 0 ==> done == done_before,
                bit == 0 || bit == 1,
        ;
        if rest > 0 {
            let carry: u128 = if tr >= denominator - tr {
                1
            } else {
                0
            };
            let tr_next: u128 = if tr >= denominator - tr {
                tr - (denominator - tr)
            } else {
                tr + tr
            };
            proof {
                assert((2 * weight) * numerator == (2 * tq + carry) * denominator + tr_next)
                    by (nonlinear_arith)
                    requires
                        weight * numerator == tq * denominator + tr,
                        tr + tr == carry * denominator + tr_next,
                ;
                assert(value >= 2 * weight) by (nonlinear_arith)
                    requires
                        value == (2 * rest) * weight + done,
                        rest >= 1,
                        weight >= 1,
                        done >= 0,
                ;
            }
            let doubled: Option<u128> = match tq.checked_add(tq) {
                Some(s) => s.checked_add(carry),
                None => None,
            };
            match doubled {
                Some(s) => {
                    tq = s;
                    tr = tr_next;
                },
                None => {
                    proof {
                        let big: int = 2 * tq + carry;
                        assert(value * numerator >= (2 * weight) * numerator)
                            by (nonlinear_arith)
                            requires
                                value >= 2 * weight,
                                numerator >= 0,
                        ;
                        lemma_quotient_at_least(
                            value * numerator,
                            (2 * weight) * numerator,
                            denominator as int,
                            big,
                        );
                    }
                    return None;
                },
            }
            proof {
                assert(value == rest * (2 * weight) + done) by (nonlinear_arith)
                    requires
                        value == (2 * rest) * weight + done,
                ;
                weight = 2 * weight;
            }
        }
    }
    proof {
        lemma_fundamental_div_mod_converse(
            value * numerator,
            denominator as int,
            q as int,
            r as int,
        );
    }
    Some(q)
}

/// `value * numerator / denominator`, rounded down. The product may be as wide as 256 bits: only
/// the quotient has to fit.
pub fn get_proportion_u128(value: u128, numerator: u128, denominator: u128) -> (r: Result<
    u128,
    ErrorCode,
>)
    ensures
        r == proportion(value, numerator, denominator),
{
    if denominator == 0 {
        return Err(ErrorCode::MathError);
    }
    proof {
        reveal(mul_div);
    }
    match value.checked_mul(numerator) {
        Some(product) => Ok(product / denominator),
        None => match mul_div_wide(value, numerator, denominator) {
            Some(q) => Ok(q),
            None => Err(ErrorCode::MathError),
        },
    }
}

/// Shares that `amount` buys in a vault of `total_shares` shares worth `vault_equity`: the
/// amount's proportion of the shares, or the amount itself while the vault is worth nothing.
pub open spec fn shares_for_amount(amount: u64, total_shares: u128, vault_equity: u64) -> Result<
    u128,
    ErrorCode,
> {
    if vault_equity > 0 {
        proportion(amount as u128, total_shares, vault_equity as u128)
    } else {
        Ok(amount as u128)
    }
}

/// Value of `n_shares` in a vault of `total_shares` shares worth `vault_equity`; nothing while
/// the vault has no shares. More shares than the vault has are `InvalidVaultSharesDetected`.
pub open spec fn amount_for_shares(n_shares: u128, total_shares: u128, vault_equity: u64) -> Result<
    u64,
    ErrorCode,
> {
    if n_shares > total_shares {
        Err(ErrorCode::InvalidVaultSharesDetected)
    } else if total_shares > 0 {
        Ok(mul_div(vault_equity as int, n_shares as int, total_shares as int) as u64)
    } else {
        Ok(0u64)
    }
}

/// A part of the shares is worth at most the whole vault.
pub proof fn lemma_amount_for_shares_bound(n_shares: u128, total_shares: u128, vault_equity: u64)
    requires
        n_shares <= total_shares,
        total_shares > 0,
    ensures
        0 <= mul_div(vault_equity as int, n_shares as int, total_shares as int) <= vault_equity,
{
    lemma_mul_div_part(vault_equity as int, n_shares as int, total_shares as int);
}

pub fn vault_amount_to_depositor_shares(amount: u64, total_shares: u128, vault_equity: u64) -> (r:
    Result<u128, ErrorCode>)
    ensures
        r == shares_for_amount(amount, total_shares, vault_equity),
{
    if vault_equity > 0 {
        get_proportion_u128(amount as u128, total_shares, vault_equity as u128)
    } else {
        Ok(amount as u128)
    }
}

pub fn depositor_shares_to_vault_amount(n_shares: u128, total_shares: u128, vault_equity: u64) -> (r:
    Result<u64, ErrorCode>)
    ensures
        r == amount_for_shares(n_shares, total_shares, vault_equity),
        r matches Ok(amount) ==> amount <= vault_equity && (total_shares > 0 ==> amount == mul_div(
            vault_equity as int,
            n_shares as int,
            total_shares as int,
        )),
{
    if n_shares > total_shares {
        return Err(ErrorCode::InvalidVaultSharesDetected);
    }
    if total_shares > 0 {
        proof {
            lemma_amount_for_shares_bound(n_shares, total_shares, vault_equity);
        }
        match get_proportion_u128(vault_equity as u128, n_shares, total_shares) {
            Ok(amount) => Ok(amount as u64),
            Err(e) => Err(e),
        }
    } else {
        Ok(0)
    }
}

/// Number of decimal digits of `n` after the first: the largest `k` with `10^k <= n`, and 0
/// for `n == 0`.
pub open spec fn log10_floor(n: nat) -> nat
    decreases n,
{
    if n < 10 {
        0
    } else {
        1 + log10_floor(n / 10)
    }
}

/// `log10_floor(n)` is the power of ten at or just below `n`.
pub proof fn lemma_log10_floor_bounds(n: nat)
    requires
        n >= 1,
    ensures
        pow(10, log10_floor(n)) <= n < pow(10, log10_floor(n) + 1),
    decreases n,
{
    reveal(pow);
    if n < 10 {
        assert(pow(10, 0) == 1);
        assert(pow(10, 1) == 10 * pow(10, 0));
    } else {
        lemma_log10_floor_bounds(n / 10);
        let k: nat = log10_floor(n / 10);
        assert(pow(10, k + 1) == 10 * pow(10, k));
        assert(pow(10, k + 2) == 10 * pow(10, (k + 1) as nat));
        assert(log10_floor(n) == k + 1);
    }
}

/// By how many decimal places the shares of a vault are cut back: `log10_floor` of the
/// shares per ten units of value.
pub open spec fn rebase_expo(total_shares: u128, vault_equity: u64) -> nat
    recommends
        vault_equity > 0,
{
    log10_floor((total_shares as nat / 10) / (vault_equity as nat))
}

/// `10^expo`, or `MathError` when it does not fit in a `u128`.
pub open spec fn pow10(expo: u32) -> Result<u128, ErrorCode> {
    to_u128(pow(10, expo as nat))
}

pub fn checked_pow10(expo: u32) -> (r: Result<u128, ErrorCode>)
    ensures
        r == pow10(expo),
        r matches Ok(power) ==> power >= 1,
{
    let mut result: u128 = 1;
    let mut i: u32 = 0;
    proof {
        reveal(pow);
        assert(pow(10, 0) == 1);
    }
    while i < expo
        invariant
            i <= expo,
            result == pow(10, i as nat),
            result >= 1,
        decreases expo - i,
    {
        proof {
            reveal(pow);
            assert(pow(10, (i + 1) as nat) == 10 * pow(10, i as nat));
        }
        match result.checked_mul(10) {
            Some(next) => {
                result = next;
            },
            None => {
                proof {
                    vstd::arithmetic::power::lemma_pow_increases(10, (i + 1) as nat, expo as nat);
                }
                return Err(ErrorCode::MathError);
            },
        }
        i = i + 1;
    }
    Ok(result)
}

/// The rebase that a vault of `total_shares` shares worth `vault_equity` is due: the number of
/// decimal places and the divisor, ten to that number. `MathError` for a vault worth nothing.
pub fn calculate_rebase_info(total_shares: u128, vault_equity: u64) -> (r: Result<
    (u32, u128),
    ErrorCode,
>)
    ensures
        match r {
            Ok(info) => vault_equity > 0 && info.0 == rebase_expo(total_shares, vault_equity)
                && info.1 == pow(10, rebase_expo(total_shares, vault_equity)) && info.0 <= 38
                && info.1 >= 1,
            Err(e) => vault_equity == 0 && e == ErrorCode::MathError,
        },
{
    if vault_equity == 0 {
        return Err(ErrorCode::MathError);
    }
    let full: u128 = total_shares / 10 / (vault_equity as u128);
    let mut expo: u32 = 0;
    let mut divisor: u128 = 1;
    let mut rest: u128 = full;
    proof {
        reveal(pow);
        assert(pow(10, 0) == 1);
    }
    while rest >= 10
        invariant
            expo <= 38,
            divisor == pow(10, expo as nat),
            divisor >= 1,
            divisor * rest <= full,
            rest >= 10 ==> expo < 38,
            log10_floor(full as nat) == expo + log10_floor(rest as nat),
        decreases rest,
    {
        let ghost rest_before: u128 = rest;
        proof {
            reveal(pow);
            assert(pow(10, (expo + 1) as nat) == 10 * pow(10, expo as nat));
            assert(divisor * 10 <= full) by (nonlinear_arith)
                requires
                    divisor * rest <= full,
                    rest >= 10,
                    divisor >= 1,
            ;
        }
        rest = rest / 10;
        divisor = divisor * 10;
        expo = expo + 1;
        proof {
            assert(divisor * rest <= full) by (nonlinear_arith)
                requires
                    (divisor / 10) * rest_before <= full,
                    divisor == (divisor / 10) * 10,
                    rest == rest_before / 10,
                    rest_before >= 0,
                    divisor >= 10,
            ;
            if rest >= 10 {
                assert(divisor * 10 <= full) by (nonlinear_arith)
                    requires
                        divisor * rest <= full,
                        rest >= 10,
                        divisor >= 1,
                ;
                // full < 2^128 / 10 < 10^38, so 10^(expo + 1) <= full keeps expo + 1 below 38
                if expo >= 38 {
                    vstd::arithmetic::power::lemma_pow_increases(10, 38, expo as nat);
                    lemma_pow10_38();
                }
            }
        }
    }
    Ok((expo, divisor))
}

proof fn lemma_pow10_38()
    ensures
        pow(10, 38) == 100_000_000_000_000_000_000_000_000_000_000_000_000int,
{
    reveal(pow);
    assert(pow(10, 0) == 1);
    assert(pow(10, 1) == 10 * pow(10, 0));
    assert(pow(10, 2) == 10 * pow(10, 1));
    assert(pow(10, 3) == 10 * pow(10, 2));
    assert(pow(10, 4) == 10 * pow(10, 3));
    assert(pow(10, 5) == 10 * pow(10, 4));
    assert(pow(10, 6) == 10 * pow(10, 5));
    assert(pow(10, 7) == 10 * pow(10, 6));
    assert(pow(10, 8) == 10 * pow(10, 7));
    assert(pow(10, 9) == 10 * pow(10, 8));
    assert(pow(10, 10) == 10 * pow(10, 9));
    assert(pow(10, 11) == 10 * pow(10, 10));
    assert(pow(10, 12) == 10 * pow(10, 11));
    assert(pow(10, 13) == 10 * pow(10, 12));
    assert(pow(10, 14) == 10 * pow(10, 13));
    assert(pow(10, 15) == 10 * pow(10, 14));
    assert(pow(10, 16) == 10 * pow(10, 15));
    assert(pow(10, 17) == 10 * pow(10, 16));
    assert(pow(10, 18) == 10 * pow(10, 17));
    assert(pow(10, 19) == 10 * pow(10, 18));
    assert(pow(10, 20) == 10 * pow(10, 19));
    assert(pow(10, 21) == 10 * pow(10, 20));
    assert(pow(10, 22) == 10 * pow(10, 21));
    assert(pow(10, 23) == 10 * pow(10, 22));
    assert(pow(10, 24) == 10 * pow(10, 23));
    assert(pow(10, 25) == 10 * pow(10, 24));
    assert(pow(10, 26) == 10 * pow(10, 25));
    assert(pow(10, 27) == 10 * pow(10, 26));
    assert(pow(10, 28) == 10 * pow(10, 27));
    assert(pow(10, 29) == 10 * pow(10, 28));
    assert(pow(10, 30) == 10 * pow(10, 29));
    assert(pow(10, 31) == 10 * pow(10, 30));
    assert(pow(10, 32) == 10 * pow(10, 31));
    assert(pow(10, 33) == 10 * pow(10, 32));
    assert(pow(10, 34) == 10 * pow(10, 33));
    assert(pow(10, 35) == 10 * pow(10, 34));
    assert(pow(10, 36) == 10 * pow(10, 35));
    assert(pow(10, 37) == 10 * pow(10, 36));
    assert(pow(10, 38) == 10 * pow(10, 37));
}

} // verus!
