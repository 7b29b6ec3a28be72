//! What each step of an operation does to the shares, the share base and the high-water mark.

use crate::constants::{ONE_YEAR, PERCENTAGE_PRECISION};
use crate::math::{
    amount_for_shares, lemma_log10_floor_bounds, lemma_mul_div_grows, lemma_mul_div_monotonic,
    lemma_mul_div_nonnegative, lemma_mul_div_part, log10_floor, mul_div, pow10, rebase_expo,
    shares_for_amount,
};
use crate::proofs::bases::{places_between, shares_in_vault_base};
use crate::state::fuel::{FuelOverflow, UserStats};
use crate::state::vault::{protocol_paid, protocol_rate, saturating_i64, Vault};
use crate::state::vault_depositor::VaultDepositor;
use crate::state::vault_protocol::{protocol_shares, VaultProtocol};
use vstd::arithmetic::power::{lemma_pow0, pow};
use vstd::prelude::*;

verus! {

/// Parts that sum to no more than a whole still do after each is divided and rounded down.
pub proof fn lemma_parts_divided(a: int, b: int, c: int, d: int)
    by (nonlinear_arith)
    requires
        0 <= a,
        0 <= b,
        a + b <= c,
        d > 0,
    ensures
        a / d + b / d <= c / d,
        0 <= a / d,
        0 <= b / d,
{
}

/// The divisor of a rebase that is due is a power of ten from ten up to a tenth of the shares
/// per unit of value.
pub proof fn lemma_rebase_divisor(total_shares: u128, vault_equity: u64)
    requires
        vault_equity > 0,
        rebase_expo(total_shares, vault_equity) != 0,
    ensures
        10 <= pow(10, rebase_expo(total_shares, vault_equity)) <= total_shares,
        pow(10, rebase_expo(total_shares, vault_equity)) as u128 == pow(
            10,
            rebase_expo(total_shares, vault_equity),
        ),
{
    let full: nat = (total_shares as nat / 10) / (vault_equity as nat);
    assert(full >= 10) by {
        if full < 10 {
            assert(log10_floor(full) == 0);
        }
    }
    lemma_log10_floor_bounds(full);
    let k: nat = log10_floor(full);
    assert(k >= 1);
    vstd::arithmetic::power::lemma_pow_increases(10, 1, k);
    assert(pow(10, 1) == 10) by {
        reveal(pow);
        assert(pow(10, 0) == 1);
        assert(pow(10, 1) == 10 * pow(10, 0));
    }
    assert(full <= total_shares) by (nonlinear_arith)
        requires
            full == (total_shares as nat / 10) / (vault_equity as nat),
            vault_equity > 0,
    ;
}

/// A rebase never lowers the base, keeps the manager's balance from going negative, and
/// where it leaves the base alone it leaves the depositors' and the protocol's shares alone.
pub proof fn lemma_vault_rebased(
    vault: Vault,
    vault_protocol: Option<VaultProtocol>,
    vault_equity: u64,
)
    ensures
        vault.rebased(vault_protocol, vault_equity) matches Ok(r) ==> {
            &&& r.vault.shares_base >= vault.shares_base
            &&& (r.protocol is Some <==> vault_protocol is Some)
            &&& (vault.shares_consistent(vault_protocol) ==> r.vault.shares_consistent(r.protocol))
            &&& (r.vault.shares_base == vault.shares_base ==> {
                &&& r.divisor is None
                &&& r.protocol == vault_protocol
                &&& r.vault == Vault { total_shares: r.vault.total_shares, ..vault }
                &&& r.vault.total_shares >= vault.total_shares
            })
            &&& (r.divisor matches Some(divisor) ==> divisor >= 10 && r.vault.shares_base
                > vault.shares_base)
            &&& r.vault.user_shares == vault.user_shares as int / places_between(vault, r.vault)
            &&& r.vault.redeem_period == vault.redeem_period
            &&& r.vault.management_fee == vault.management_fee
            &&& r.vault.last_fee_update_ts == vault.last_fee_update_ts
            &&& r.vault.profit_share == vault.profit_share
            &&& r.vault.liquidation_delegate == vault.liquidation_delegate
            &&& protocol_rate(r.protocol) == protocol_rate(vault_protocol)
        },
{
    lemma_pow0(10);
    if vault_equity != 0 && vault_equity < vault.total_shares && rebase_expo(
        vault.total_shares,
        vault_equity,
    ) != 0 {
        lemma_rebase_divisor(vault.total_shares, vault_equity);
        let divisor = pow(10, rebase_expo(vault.total_shares, vault_equity)) as u128;
        if vault.shares_consistent(vault_protocol) {
            lemma_parts_divided(
                vault.user_shares as int,
                protocol_shares(vault_protocol) as int,
                vault.total_shares as int,
                divisor as int,
            );
        }
    }
}

/// A depositor's rebase leaves the depositor in the vault's base and its high-water mark
/// where it was; where no base moves, the depositor is as it was.
pub proof fn lemma_depositor_rebased(
    depositor: VaultDepositor,
    vault: Vault,
    vault_protocol: Option<VaultProtocol>,
    vault_equity: u64,
)
    ensures
        depositor.rebased(vault, vault_protocol, vault_equity) matches Ok(r) ==> {
            &&& vault.rebased(vault_protocol, vault_equity) matches Ok(v) && v.vault
                == r.position.vault && v.protocol == r.position.protocol
            &&& r.position.depositor.base_valid(r.position.vault)
            &&& r.position.depositor.cumulative_profit_share_amount
                == depositor.cumulative_profit_share_amount
            &&& r.position.depositor.net_deposits == depositor.net_deposits
            &&& r.position.depositor.profit_share_fee_paid == depositor.profit_share_fee_paid
            &&& r.position.depositor.authority == depositor.authority
            &&& r.position.depositor.last_withdraw_request.value
                == depositor.last_withdraw_request.value
            &&& r.position.depositor.last_withdraw_request.ts == depositor.last_withdraw_request.ts
            &&& (depositor.base_valid(r.position.vault) ==> r.position.depositor == depositor
                && r.divisor is None)
            &&& depositor.vault_shares_base <= r.position.vault.shares_base
            &&& r.position.depositor.vault_shares == shares_in_vault_base(
                depositor,
                r.position.vault,
            )
        },
{
    lemma_pow0(10);
    match vault.rebased(vault_protocol, vault_equity) {
        Err(_) => {},
        Ok(v) => {
            if v.vault.shares_base > depositor.vault_shares_base {
                let behind: u32 = (v.vault.shares_base - depositor.vault_shares_base) as u32;
                assert(behind as nat == (v.vault.shares_base - depositor.vault_shares_base) as nat);
                match pow10(behind) {
                    Err(_) => {},
                    Ok(divisor) => {
                        assert(divisor as int == pow(10, behind as nat));
                    },
                }
            }
        },
    }
}

/// An annual fee is never negative.
pub proof fn lemma_fee_due_nonnegative(depositor_equity: u64, rate: int, period: int)
    requires
        rate >= 0,
        period >= 0,
    ensures
        Vault::fee_due(depositor_equity, rate, period) >= 0,
{
    lemma_mul_div_nonnegative(depositor_equity as int, rate, PERCENTAGE_PRECISION as int);
    lemma_mul_div_nonnegative(
        mul_div(depositor_equity as int, rate, PERCENTAGE_PRECISION as int),
        period,
        ONE_YEAR as int,
    );
}

/// The annual fees that are due leave the depositors at least one unit of value.
pub proof fn lemma_fees_due_bounds(
    vault: Vault,
    vault_protocol: Option<VaultProtocol>,
    depositor_equity: u64,
    now: i64,
)
    requires
        depositor_equity > 0,
    ensures
        0 <= vault.management_fee_due(depositor_equity, now),
        0 <= vault.protocol_fee_due(vault_protocol, depositor_equity, now),
        vault.management_fee_due(depositor_equity, now) + vault.protocol_fee_due(
            vault_protocol,
            depositor_equity,
            now,
        ) < depositor_equity,
{
    lemma_fee_due_nonnegative(depositor_equity, vault.management_rate(), vault.fee_period(now));
    match vault_protocol {
        None => {},
        Some(vp) => {
            lemma_fee_due_nonnegative(depositor_equity, vp.protocol_fee as int, vault.fee_period(now));
        },
    }
}

/// Making shares for a fee never takes shares away.
pub proof fn lemma_diluted_shares_grow(total_shares: u128, depositor_equity: u64, payment: int)
    requires
        0 <= payment < depositor_equity,
    ensures
        Vault::diluted_shares(total_shares, depositor_equity, payment) matches Ok(diluted)
            ==> diluted >= total_shares,
{
    let factor: int = mul_div(
        depositor_equity as int,
        PERCENTAGE_PRECISION as int,
        depositor_equity - payment,
    );
    assert(PERCENTAGE_PRECISION <= factor <= depositor_equity * PERCENTAGE_PRECISION) by {
        reveal(mul_div);
        let d: int = depositor_equity as int;
        let q: int = depositor_equity - payment;
        assert(1_000_000 <= (d * 1_000_000) / q <= d * 1_000_000) by (nonlinear_arith)
            requires
                1 <= q <= d,
        ;
    }
    assert(factor as u128 == factor);
    lemma_mul_div_grows(total_shares as int, factor, PERCENTAGE_PRECISION as int);
}

/// The annual fees never lower the base, keep the manager's balance from going negative, and
/// where they leave the base alone they leave the depositors' shares alone.
pub proof fn lemma_fee_applied(
    vault: Vault,
    vault_protocol: Option<VaultProtocol>,
    vault_equity: u64,
    now: i64,
)
    ensures
        vault.fee_applied(vault_protocol, vault_equity, now) matches Ok(r) ==> {
            &&& r.vault.shares_base >= vault.shares_base
            &&& (r.protocol is Some <==> vault_protocol is Some)
            &&& (vault.shares_consistent(vault_protocol) ==> r.vault.shares_consistent(r.protocol))
            &&& (r.vault.shares_base == vault.shares_base ==> r.vault.user_shares
                == vault.user_shares && r.vault.total_shares >= vault.total_shares)
            &&& r.vault.user_shares == vault.user_shares as int / places_between(vault, r.vault)
            &&& r.vault.redeem_period == vault.redeem_period
            &&& r.vault.profit_share == vault.profit_share
            &&& r.vault.liquidation_delegate == vault.liquidation_delegate
            &&& r.vault.total_withdraw_requested == vault.total_withdraw_requested
            &&& r.vault.net_deposits == vault.net_deposits
        },
{
    lemma_pow0(10);
    match vault.depositor_equity(vault_equity) {
        Err(_) => {},
        Ok(depositor_equity) => {
            if depositor_equity == 0 || (vault.management_rate() == 0 && protocol_rate(
                vault_protocol,
            ) == 0) {
            } else {
                lemma_fees_due_bounds(vault, vault_protocol, depositor_equity, now);
                let management = vault.management_fee_due(depositor_equity, now);
                let protocol = vault.protocol_fee_due(vault_protocol, depositor_equity, now);
                lemma_diluted_shares_grow(
                    vault.total_shares,
                    depositor_equity,
                    management + protocol,
                );
                match Vault::diluted_shares(
                    vault.total_shares,
                    depositor_equity,
                    management + protocol,
                ) {
                    Err(_) => {},
                    Ok(total_shares) => {
                        let made = total_shares - vault.total_shares;
                        if management + protocol > 0 {
                            lemma_mul_div_part(made, protocol, management + protocol);
                        }
                        let protocol_part = if management + protocol > 0 {
                            mul_div(made, protocol, management + protocol)
                        } else {
                            0
                        };
                        match protocol_paid(vault_protocol, protocol_part as u128, protocol as u64) {
                            Err(_) => {},
                            Ok(paid) => {
                                let charged = Vault {
                                    total_shares,
                                    manager_total_fee: saturating_i64(
                                        vault.manager_total_fee,
                                        management as i64,
                                    ),
                                    last_fee_update_ts: if management + protocol == 0 || made == 0 {
                                        vault.last_fee_update_ts
                                    } else {
                                        now
                                    },
                                    ..vault
                                };
                                lemma_vault_rebased(charged, paid, vault_equity);
                                assert(places_between(vault, charged) == 1);
                            },
                        }
                    },
                }
            }
        },
    }
}

/// Settling fuel touches nothing but the fuel: the depositor's fuel, and the vault's fuel per
/// share.
pub proof fn lemma_fuel_settled(
    depositor: VaultDepositor,
    now: i64,
    vault: Vault,
    user_stats: UserStats,
    fuel_overflow: Option<FuelOverflow>,
)
    ensures
        depositor.fuel_settled(now, vault, user_stats, fuel_overflow) matches Ok(r) ==> {
            &&& r.depositor == VaultDepositor {
                fuel_amount: r.depositor.fuel_amount,
                cumulative_fuel_per_share_amount: r.depositor.cumulative_fuel_per_share_amount,
                last_fuel_update_ts: r.depositor.last_fuel_update_ts,
                ..depositor
            }
            &&& r.vault == Vault {
                cumulative_fuel_per_share: r.vault.cumulative_fuel_per_share,
                cumulative_fuel: r.vault.cumulative_fuel,
                last_cumulative_fuel_per_share_ts: r.vault.last_cumulative_fuel_per_share_ts,
                ..vault
            }
        },
{
}

/// A part of a gain is no more than a greater part of it.
pub proof fn lemma_shares_for_amount_monotonic(a: u64, b: u64, total_shares: u128, vault_equity: u64)
    requires
        a <= b,
    ensures
        shares_for_amount(a, total_shares, vault_equity) matches Ok(x) ==> (shares_for_amount(
            b,
            total_shares,
            vault_equity,
        ) matches Ok(y) ==> x <= y),
{
    if vault_equity > 0 {
        lemma_mul_div_monotonic(a as int, b as int, total_shares as int, vault_equity as int);
    }
}

/// Profit share moves shares from the depositor to the manager and the protocol: the shares
/// that leave the depositor leave `user_shares`, the protocol gets no more than those, and the
/// high-water mark does not fall.
pub proof fn lemma_profit_share_applied(
    depositor: VaultDepositor,
    vault_equity: u64,
    vault: Vault,
    vault_protocol: Option<VaultProtocol>,
)
    ensures
        depositor.profit_share_applied(vault_equity, vault, vault_protocol) matches Ok(r) ==> {
            &&& depositor.base_valid(vault)
            &&& r.position.depositor == VaultDepositor {
                vault_shares: r.position.depositor.vault_shares,
                cumulative_profit_share_amount: r.position.depositor.cumulative_profit_share_amount,
                profit_share_fee_paid: r.position.depositor.profit_share_fee_paid,
                ..depositor
            }
            &&& r.position.vault == Vault {
                user_shares: r.position.vault.user_shares,
                manager_total_profit_share: r.position.vault.manager_total_profit_share,
                ..vault
            }
            &&& (r.position.protocol is Some <==> vault_protocol is Some)
            &&& r.position.depositor.vault_shares <= depositor.vault_shares
            &&& vault.user_shares - r.position.vault.user_shares == depositor.vault_shares
                - r.position.depositor.vault_shares
            &&& protocol_shares(r.position.protocol) - protocol_shares(vault_protocol)
                <= depositor.vault_shares - r.position.depositor.vault_shares
            &&& protocol_shares(r.position.protocol) >= protocol_shares(vault_protocol)
            &&& r.position.depositor.cumulative_profit_share_amount
                >= depositor.cumulative_profit_share_amount
            &&& r.manager + r.protocol == r.position.depositor.profit_share_fee_paid
                - depositor.profit_share_fee_paid
        },
{
    match amount_for_shares(depositor.vault_shares, vault.total_shares, vault_equity) {
        Err(_) => {},
        Ok(total_amount) => {
            match depositor.profit(total_amount) {
                Err(_) => {},
                Ok(profit) => {
                    if profit > 0 {
                        lemma_mul_div_nonnegative(
                            profit as int,
                            vault.profit_share as int,
                            PERCENTAGE_PRECISION as int,
                        );
                        match vault_protocol {
                            None => {},
                            Some(vp) => {
                                lemma_mul_div_nonnegative(
                                    profit as int,
                                    vp.protocol_profit_share as int,
                                    PERCENTAGE_PRECISION as int,
                                );
                            },
                        }
                    }
                    match depositor.profit_share_charged(total_amount, vault, vault_protocol) {
                        Err(_) => {},
                        Ok(charged) => {
                            assert(charged.manager + charged.protocol <= u64::MAX);
                            lemma_shares_for_amount_monotonic(
                                charged.protocol as u64,
                                (charged.manager + charged.protocol) as u64,
                                vault.total_shares,
                                vault_equity,
                            );
                        },
                    }
                },
            }
        },
    }
}

} // verus!
