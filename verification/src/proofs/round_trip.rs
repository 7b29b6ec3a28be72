//! Paying in and at once taking out again, at a price that has not moved, gives back what
//! was paid in.

use crate::error::ErrorCode;
use crate::math::{
    amount_for_shares, lemma_mul_div_add_multiple, lemma_mul_div_commutes, lemma_mul_div_exact,
    lemma_mul_div_monotonic_numerator, lemma_mul_div_nonnegative, lemma_mul_div_part,
    lemma_mul_div_same_price, lemma_mul_div_whole, mul_div, rebase_expo,
};
use crate::proofs::stages::{
    lemma_depositor_rebased, lemma_fee_applied, lemma_fuel_settled, lemma_profit_share_applied,
    lemma_vault_rebased,
};
use crate::state::fuel::{FuelOverflow, UserStats};
use crate::state::position::Position;
use crate::state::vault::{protocol_rate, Rebased, Vault};
use crate::state::vault_depositor::VaultDepositor;
use crate::state::vault_protocol::VaultProtocol;
use crate::state::withdraw_unit::WithdrawUnit;
use vstd::prelude::*;

verus! {

/// No annual fee is due at `now`: no rate is set, or the fees have been charged up to `now`.
pub open spec fn no_fee_due(vault: Vault, vault_protocol: Option<VaultProtocol>, now: i64) -> bool {
    (vault.management_rate() == 0 && protocol_rate(vault_protocol) == 0) || vault.fee_period(now)
        == 0
}

/// No rebase is due in a vault of `total_shares` shares worth `vault_equity`: it has fewer
/// than a hundred shares per unit of value.
pub open spec fn no_rebase_due(total_shares: u128, vault_equity: u64) -> bool {
    vault_equity == 0 || total_shares < 100 * vault_equity
}

/// The depositor and the vault as a deposit finds them once its rebase and its annual fees
/// are done, before anything is charged or credited.
pub open spec fn settled_for_deposit(
    depositor: VaultDepositor,
    vault_equity: u64,
    vault: Vault,
    vault_protocol: Option<VaultProtocol>,
    now: i64,
) -> Option<Position> {
    match depositor.rebased(vault, vault_protocol, vault_equity) {
        Err(_) => None,
        Ok(rebased) => match rebased.position.vault.fee_applied(
            rebased.position.protocol,
            vault_equity,
            now,
        ) {
            Err(_) => None,
            Ok(charged) => Some(
                Position {
                    depositor: rebased.position.depositor,
                    vault: charged.vault,
                    protocol: charged.protocol,
                },
            ),
        },
    }
}

/// The price at which the deposit is made is one that the way back meets again: once the
/// rebase and the annual fees of the deposit are done, no fee and no rebase is due any more,
/// and `amount` buys a whole number of shares.
pub open spec fn deposit_at_whole_price(
    depositor: VaultDepositor,
    amount: u64,
    vault_equity: u64,
    vault: Vault,
    vault_protocol: Option<VaultProtocol>,
    now: i64,
) -> bool {
    settled_for_deposit(depositor, vault_equity, vault, vault_protocol, now) matches Some(settled)
        ==> {
        &&& no_fee_due(settled.vault, settled.protocol, now)
        &&& no_rebase_due(settled.vault.total_shares, vault_equity)
        &&& (vault_equity > 0 ==> settled.vault.total_shares > 0 && (amount
            * settled.vault.total_shares) % (vault_equity as int) == 0)
    }
}

/// The depositor has no gain when the deposit is made, so that the deposit charges no
/// profit share.
pub open spec fn no_gain_at_deposit(
    depositor: VaultDepositor,
    vault_equity: u64,
    vault: Vault,
    vault_protocol: Option<VaultProtocol>,
    now: i64,
) -> bool {
    settled_for_deposit(depositor, vault_equity, vault, vault_protocol, now) matches Some(settled)
        && no_gain(settled.depositor, settled.vault.total_shares, vault_equity)
}

/// The shares that are worth `amount` in a vault of `total_shares` shares worth `vault_equity`.
pub open spec fn shares_worth(amount: u64, total_shares: u128, vault_equity: u64) -> int {
    if vault_equity > 0 {
        mul_div(amount as int, total_shares as int, vault_equity as int)
    } else {
        0
    }
}

/// Where no rebase is due, the rebase does no more than give a vault without shares its
/// first ones.
pub proof fn lemma_no_rebase(vault: Vault, vault_protocol: Option<VaultProtocol>, vault_equity: u64)
    requires
        no_rebase_due(vault.total_shares, vault_equity),
    ensures
        vault.rebased(vault_protocol, vault_equity) == Ok::<Rebased, ErrorCode>(
            Rebased {
                vault: Vault {
                    total_shares: if vault_equity != 0 && vault.total_shares == 0 {
                        vault_equity as u128
                    } else {
                        vault.total_shares
                    },
                    ..vault
                },
                protocol: vault_protocol,
                divisor: None,
            },
        ),
{
    if vault_equity != 0 {
        let t: int = vault.total_shares as int;
        let e: int = vault_equity as int;
        assert((t / 10) / e < 10) by (nonlinear_arith)
            requires
                0 <= t < 100 * e,
                e > 0,
        ;
        assert(rebase_expo(vault.total_shares, vault_equity) == 0);
    }
}

/// Where no annual fee and no rebase is due, charging the fees changes at most the time of
/// the last charge, and still none is due.
pub proof fn lemma_no_fee(
    vault: Vault,
    vault_protocol: Option<VaultProtocol>,
    vault_equity: u64,
    now: i64,
)
    requires
        no_fee_due(vault, vault_protocol, now),
        no_rebase_due(vault.total_shares, vault_equity),
        vault_equity != 0 ==> vault.total_shares != 0,
    ensures
        vault.fee_applied(vault_protocol, vault_equity, now) matches Ok(r) ==> {
            &&& r.protocol == vault_protocol
            &&& r.vault == Vault { last_fee_update_ts: r.vault.last_fee_update_ts, ..vault }
            &&& no_fee_due(r.vault, r.protocol, now)
        },
{
    match vault.depositor_equity(vault_equity) {
        Err(_) => {},
        Ok(depositor_equity) => {
            if depositor_equity == 0 || (vault.management_rate() == 0 && protocol_rate(
                vault_protocol,
            ) == 0) {
            } else {
                assert(vault.fee_period(now) == 0);
                assert(forall|x: int| #[trigger] mul_div(x, 0, 31_536_000) == 0) by {
                    reveal(mul_div);
                }
                assert(vault.management_fee_due(depositor_equity, now) == 0);
                assert(vault.protocol_fee_due(vault_protocol, depositor_equity, now) == 0);
                lemma_mul_div_whole(1_000_000, depositor_equity as int);
                assert(mul_div(depositor_equity as int, 1_000_000, depositor_equity as int)
                    == 1_000_000) by {
                    reveal(mul_div);
                    assert(depositor_equity as int * 1_000_000 == 1_000_000
                        * depositor_equity as int) by (nonlinear_arith);
                }
                lemma_mul_div_whole(vault.total_shares as int, 1_000_000);
                lemma_no_rebase(vault, vault_protocol, vault_equity);
                match vault_protocol {
                    None => {},
                    Some(vp) => {
                        assert(VaultProtocol {
                            protocol_profit_and_fee_shares: vp.protocol_profit_and_fee_shares,
                            protocol_total_fee: vp.protocol_total_fee,
                            ..vp
                        } == vp);
                    },
                }
            }
        },
    }
}

/// The depositor's shares are worth no more than its high-water mark, so that no profit
/// share is due.
pub open spec fn no_gain(depositor: VaultDepositor, total_shares: u128, vault_equity: u64) -> bool {
    amount_for_shares(depositor.vault_shares, total_shares, vault_equity) matches Ok(value)
        && value <= depositor.high_water_mark()
}

/// Profit share leaves a depositor without a gain, and a vault with such a depositor, as
/// they are.
pub proof fn lemma_no_profit_share(
    depositor: VaultDepositor,
    vault_equity: u64,
    vault: Vault,
    vault_protocol: Option<VaultProtocol>,
)
    requires
        no_gain(depositor, vault.total_shares, vault_equity),
    ensures
        depositor.profit_share_applied(vault_equity, vault, vault_protocol) matches Ok(r) ==> {
            &&& r.position == Position { depositor, vault, protocol: vault_protocol }
            &&& r.manager == 0
            &&& r.protocol == 0
        },
{
    assert(forall|n: int, d: int| d > 0 ==> #[trigger] mul_div(0, n, d) == 0) by {
        reveal(mul_div);
    }
    match vault_protocol {
        None => {},
        Some(vp) => {
            assert(VaultProtocol {
                protocol_total_profit_share: vp.protocol_total_profit_share,
                protocol_profit_and_fee_shares: vp.protocol_profit_and_fee_shares,
                ..vp
            } == vp);
        },
    }
}

/// After profit share the depositor has no gain left.
pub proof fn lemma_profit_share_leaves_no_gain(
    depositor: VaultDepositor,
    vault_equity: u64,
    vault: Vault,
    vault_protocol: Option<VaultProtocol>,
)
    ensures
        depositor.profit_share_applied(vault_equity, vault, vault_protocol) matches Ok(r)
            ==> no_gain(r.position.depositor, r.position.vault.total_shares, vault_equity),
{
    lemma_profit_share_applied(depositor, vault_equity, vault, vault_protocol);
    match depositor.profit_share_applied(vault_equity, vault, vault_protocol) {
        Err(_) => {},
        Ok(r) => {
            if vault.total_shares > 0 {
                lemma_mul_div_monotonic_numerator(
                    vault_equity as int,
                    r.position.depositor.vault_shares as int,
                    depositor.vault_shares as int,
                    vault.total_shares as int,
                );
                lemma_mul_div_part(
                    vault_equity as int,
                    depositor.vault_shares as int,
                    vault.total_shares as int,
                );
                lemma_mul_div_part(
                    vault_equity as int,
                    r.position.depositor.vault_shares as int,
                    vault.total_shares as int,
                );
            }
        },
    }
}

/// A position from which `n_shares` of the depositor's shares can be taken out for `amount` at
/// once: no fee and no rebase is due in a vault worth `vault_equity`, the depositor is in the
/// vault's base and has no gain, and the shares are worth the amount to the unit.
pub open spec fn ready_to_return(
    position: Position,
    n_shares: int,
    amount: u64,
    vault_equity: u64,
    now: i64,
) -> bool {
    &&& no_fee_due(position.vault, position.protocol, now)
    &&& no_rebase_due(position.vault.total_shares, vault_equity)
    &&& (vault_equity != 0 ==> position.vault.total_shares != 0)
    &&& position.depositor.base_valid(position.vault)
    &&& 0 <= n_shares <= position.depositor.vault_shares
    &&& n_shares * vault_equity == amount * position.vault.total_shares
    &&& amount <= vault_equity
}

/// A deposit at a whole price leaves the position ready to return the deposit, and the
/// depositor without a gain; a depositor that had no gain is charged no profit share.
pub proof fn lemma_deposit_ready_to_return(
    depositor: VaultDepositor,
    amount: u64,
    vault_equity: u64,
    vault: Vault,
    vault_protocol: Option<VaultProtocol>,
    now: i64,
    user_stats: UserStats,
    fuel_overflow: Option<FuelOverflow>,
    deposit_oracle_price: i64,
)
    requires
        vault_equity + amount <= u64::MAX,
        deposit_at_whole_price(depositor, amount, vault_equity, vault, vault_protocol, now),
    ensures
        depositor.deposited(
            amount,
            vault_equity,
            vault,
            vault_protocol,
            now,
            user_stats,
            fuel_overflow,
            deposit_oracle_price,
        ) matches Ok(a) ==> {
            &&& ready_to_return(
                a.position,
                shares_worth(
                    amount,
                    a.position.vault.total_shares,
                    (vault_equity + amount) as u64,
                ),
                amount,
                (vault_equity + amount) as u64,
                now,
            )
            &&& no_gain(
                a.position.depositor,
                a.position.vault.total_shares,
                (vault_equity + amount) as u64,
            )
            &&& !a.position.depositor.last_withdraw_request.is_pending()
            &&& (no_gain_at_deposit(depositor, vault_equity, vault, vault_protocol, now)
                ==> a.position.depositor.profit_share_fee_paid == depositor.profit_share_fee_paid
                && a.position.depositor.cumulative_profit_share_amount
                == depositor.cumulative_profit_share_amount)
        },
{
    let equity_after: u64 = (vault_equity + amount) as u64;
    match depositor.deposit_allowed(amount, vault_equity, vault) {
        Err(_) => {},
        Ok(_) => {
            lemma_depositor_rebased(depositor, vault, vault_protocol, vault_equity);
            lemma_vault_rebased(vault, vault_protocol, vault_equity);
            match depositor.rebased(vault, vault_protocol, vault_equity) {
                Err(_) => {},
                Ok(rebased) => {
                    let v1 = rebased.position.vault;
                    let d1 = rebased.position.depositor;
                    lemma_fee_applied(v1, rebased.position.protocol, vault_equity, now);
                    match v1.fee_applied(rebased.position.protocol, vault_equity, now) {
                        Err(_) => {},
                        Ok(charged) => {
                            assert(settled_for_deposit(
                                depositor,
                                vault_equity,
                                vault,
                                vault_protocol,
                                now,
                            ) == Some(
                                Position {
                                    depositor: d1,
                                    vault: charged.vault,
                                    protocol: charged.protocol,
                                },
                            ));
                            // a vault worth nothing has no shares when it takes a deposit
                            assert(vault_equity == 0 ==> charged.vault.total_shares == 0);
                            lemma_fuel_settled(d1, now, charged.vault, user_stats, fuel_overflow);
                            match d1.fuel_settled(now, charged.vault, user_stats, fuel_overflow) {
                                Err(_) => {},
                                Ok(settled) => {
                                    lemma_profit_share_applied(
                                        settled.depositor,
                                        vault_equity,
                                        settled.vault,
                                        charged.protocol,
                                    );
                                    lemma_profit_share_leaves_no_gain(
                                        settled.depositor,
                                        vault_equity,
                                        settled.vault,
                                        charged.protocol,
                                    );
                                    if no_gain_at_deposit(
                                        depositor,
                                        vault_equity,
                                        vault,
                                        vault_protocol,
                                        now,
                                    ) {
                                        lemma_no_profit_share(
                                            settled.depositor,
                                            vault_equity,
                                            settled.vault,
                                            charged.protocol,
                                        );
                                    }
                                    match settled.depositor.profit_share_applied(
                                        vault_equity,
                                        settled.vault,
                                        charged.protocol,
                                    ) {
                                        Err(_) => {},
                                        Ok(shared) => {
                                            let d3 = shared.position.depositor;
                                            let v3 = shared.position.vault;
                                            assert(v3.total_shares == charged.vault.total_shares);
                                            lemma_credited_ready(d3, v3, amount, vault_equity);
                                            match d3.credited(v3, amount, vault_equity) {
                                                Err(_) => {},
                                                Ok(credited) => {
                                                    if equity_after > 0 {
                                                        let n: int = credited.0.vault_shares
                                                            - d3.vault_shares;
                                                        assert(amount * credited.1.total_shares
                                                            == n * equity_after)
                                                            by (nonlinear_arith)
                                                            requires
                                                                n * equity_after == amount
                                                                    * credited.1.total_shares,
                                                        ;
                                                        lemma_mul_div_exact(
                                                            amount as int,
                                                            credited.1.total_shares as int,
                                                            equity_after as int,
                                                            n,
                                                        );
                                                    }
                                                },
                                            }
                                        },
                                    }
                                },
                            }
                        },
                    }
                },
            }
        },
    }
}

/// Crediting a deposit that buys a whole number of shares keeps the price, so that the new
/// shares are worth the deposit to the unit, and gives a depositor without a gain none.
pub proof fn lemma_credited_ready(
    depositor: VaultDepositor,
    vault: Vault,
    amount: u64,
    vault_equity: u64,
)
    requires
        vault_equity + amount <= u64::MAX,
        no_rebase_due(vault.total_shares, vault_equity),
        vault_equity != 0 ==> vault.total_shares != 0,
        vault_equity == 0 ==> vault.total_shares == 0,
        vault_equity > 0 ==> (amount * vault.total_shares) % (vault_equity as int) == 0,
        no_gain(depositor, vault.total_shares, vault_equity),
    ensures
        depositor.credited(vault, amount, vault_equity) matches Ok(c) ==> {
            let n = if vault_equity > 0 {
                mul_div(amount as int, vault.total_shares as int, vault_equity as int)
            } else {
                amount as int
            };
            let equity_after = (vault_equity + amount) as u64;
            &&& c.0.base_valid(c.1)
            &&& c.0.vault_shares == depositor.vault_shares + n
            &&& c.1.total_shares == vault.total_shares + n
            &&& 0 <= n
            &&& n * equity_after == amount * c.1.total_shares
            &&& no_rebase_due(c.1.total_shares, equity_after)
            &&& (equity_after != 0 ==> c.1.total_shares != 0)
            &&& no_gain(c.0, c.1.total_shares, equity_after)
        },
{
    match depositor.credited(vault, amount, vault_equity) {
        Err(_) => {},
        Ok(_) => {
            let x: int = amount as int;
            let e: int = vault_equity as int;
            let t: int = vault.total_shares as int;
            let s: int = depositor.vault_shares as int;
            let e2: int = e + x;
            if vault_equity > 0 {
                let n: int = mul_div(x, t, e);
                lemma_mul_div_nonnegative(x, t, e);
                assert(n * e == x * t) by {
                    reveal(mul_div);
                    assert(n * e == x * t) by (nonlinear_arith)
                        requires
                            n == (x * t) / e,
                            (x * t) % e == 0,
                            e > 0,
                    ;
                }
                let t2: int = t + n;
                assert(n * e2 == x * t2) by (nonlinear_arith)
                    requires
                        n * e == x * t,
                        e2 == e + x,
                        t2 == t + n,
                ;
                assert(e * t2 == e2 * t) by (nonlinear_arith)
                    requires
                        n * e == x * t,
                        e2 == e + x,
                        t2 == t + n,
                ;
                assert(t2 < 100 * e2) by (nonlinear_arith)
                    requires
                        e * t2 == e2 * t,
                        t < 100 * e,
                        e > 0,
                        e2 >= e,
                        t >= 0,
                ;
                // the depositor's old shares are worth what they were, and the new ones
                // the deposit
                assert(e2 * n == x * t2) by (nonlinear_arith)
                    requires
                        n * e2 == x * t2,
                ;
                lemma_mul_div_add_multiple(e2, s, n, t2, x);
                lemma_mul_div_commutes(e2, s, t2);
                lemma_mul_div_commutes(e, s, t);
                lemma_mul_div_same_price(s, e, t, e2, t2);
                lemma_mul_div_part(e, s, t);
            } else {
                if amount > 0 {
                    lemma_mul_div_whole(x, x);
                    lemma_mul_div_commutes(x, x, x);
                }
            }
        },
    }
}

/// From a position that is ready to return `amount` for `n_shares`, with a depositor without
/// a gain, a request for the amount in tokens is a request for those shares; it charges no
/// profit share and leaves the position ready.
pub proof fn lemma_request_when_ready(
    depositor: VaultDepositor,
    n_shares: int,
    amount: u64,
    vault_equity: u64,
    vault: Vault,
    vault_protocol: Option<VaultProtocol>,
    now: i64,
    user_stats: UserStats,
    fuel_overflow: Option<FuelOverflow>,
    deposit_oracle_price: i64,
)
    requires
        ready_to_return(
            Position { depositor, vault, protocol: vault_protocol },
            n_shares,
            amount,
            vault_equity,
            now,
        ),
        no_gain(depositor, vault.total_shares, vault_equity),
    ensures
        depositor.withdraw_requested(
            amount,
            WithdrawUnit::Token,
            vault_equity,
            vault,
            vault_protocol,
            now,
            user_stats,
            fuel_overflow,
            deposit_oracle_price,
        ) matches Ok(b) ==> {
            &&& ready_to_return(b.position, n_shares, amount, vault_equity, now)
            &&& b.position.depositor.last_withdraw_request.shares == n_shares
            &&& b.position.depositor.last_withdraw_request.value == amount
            &&& b.position.depositor.last_withdraw_request.ts == now
            &&& b.position.depositor.vault_shares == depositor.vault_shares
            &&& b.position.depositor.profit_share_fee_paid == depositor.profit_share_fee_paid
            &&& b.position.depositor.cumulative_profit_share_amount
                == depositor.cumulative_profit_share_amount
            &&& b.position.vault.user_shares == vault.user_shares
            &&& b.position.vault.total_shares == vault.total_shares
        },
{
    lemma_no_rebase(vault, vault_protocol, vault_equity);
    match depositor.rebased(vault, vault_protocol, vault_equity) {
        Err(_) => {},
        Ok(rebased) => {
            assert(rebased.position.vault == vault);
            assert(rebased.position.depositor == depositor);
            lemma_no_fee(vault, vault_protocol, vault_equity, now);
            match vault.fee_applied(vault_protocol, vault_equity, now) {
                Err(_) => {},
                Ok(charged) => {
                    lemma_fuel_settled(depositor, now, charged.vault, user_stats, fuel_overflow);
                    match depositor.fuel_settled(now, charged.vault, user_stats, fuel_overflow) {
                        Err(_) => {},
                        Ok(settled) => {
                            lemma_no_profit_share(
                                settled.depositor,
                                vault_equity,
                                settled.vault,
                                vault_protocol,
                            );
                            if vault_equity > 0 {
                                lemma_mul_div_exact(
                                    amount as int,
                                    vault.total_shares as int,
                                    vault_equity as int,
                                    n_shares,
                                );
                            }
                        },
                    }
                },
            }
        },
    }
}

/// From a position that is ready to return `amount` for the shares of the depositor's
/// request, quoted at `amount`, redeeming the request pays `amount` and charges no profit
/// share.
pub proof fn lemma_withdraw_when_ready(
    depositor: VaultDepositor,
    amount: u64,
    vault_equity: u64,
    vault: Vault,
    vault_protocol: Option<VaultProtocol>,
    now: i64,
    user_stats: UserStats,
    fuel_overflow: Option<FuelOverflow>,
    deposit_oracle_price: i64,
)
    requires
        ready_to_return(
            Position { depositor, vault, protocol: vault_protocol },
            depositor.last_withdraw_request.shares as int,
            amount,
            vault_equity,
            now,
        ),
        depositor.last_withdraw_request.value == amount,
    ensures
        depositor.withdrawn(
            vault_equity,
            vault,
            vault_protocol,
            now,
            user_stats,
            fuel_overflow,
            deposit_oracle_price,
        ) matches Ok(c) ==> {
            &&& c.amount == amount
            &&& c.position.depositor.profit_share_fee_paid == depositor.profit_share_fee_paid
            &&& c.position.depositor.cumulative_profit_share_amount
                == depositor.cumulative_profit_share_amount
        },
{
    lemma_no_rebase(vault, vault_protocol, vault_equity);
    match depositor.rebased(vault, vault_protocol, vault_equity) {
        Err(_) => {},
        Ok(rebased) => {
            assert(rebased.position.vault == vault);
            assert(rebased.position.depositor == depositor);
            lemma_fuel_settled(depositor, now, vault, user_stats, fuel_overflow);
            match depositor.fuel_settled(now, vault, user_stats, fuel_overflow) {
                Err(_) => {},
                Ok(settled) => {
                    lemma_no_fee(settled.vault, vault_protocol, vault_equity, now);
                    if vault.total_shares > 0 {
                        assert(vault_equity * depositor.last_withdraw_request.shares
                            == depositor.last_withdraw_request.shares * vault_equity)
                            by (nonlinear_arith);
                        lemma_mul_div_exact(
                            vault_equity as int,
                            depositor.last_withdraw_request.shares as int,
                            vault.total_shares as int,
                            amount as int,
                        );
                    }
                },
            }
        },
    }
}

/// Depositing `amount` and at once asking for it back and redeeming it, in a vault that is
/// worth the deposit more than before and otherwise unchanged, pays `amount` back and
/// charges no profit share on the way out; a depositor that had no gain before the deposit
/// is charged none at all.
///
/// It is stated for a deposit at a whole price: at any other price the shares that the
/// deposit buys are worth less than the deposit by the rounding, and a fee or a rebase that
/// falls due between the deposit and the withdrawal moves the price.
pub proof fn lemma_deposit_then_withdraw_returns_deposit(
    depositor: VaultDepositor,
    amount: u64,
    vault_equity: u64,
    vault: Vault,
    vault_protocol: Option<VaultProtocol>,
    now: i64,
    user_stats: UserStats,
    fuel_overflow: Option<FuelOverflow>,
    deposit_oracle_price: i64,
)
    requires
        vault_equity + amount <= u64::MAX,
        deposit_at_whole_price(depositor, amount, vault_equity, vault, vault_protocol, now),
    ensures
        depositor.deposited(
            amount,
            vault_equity,
            vault,
            vault_protocol,
            now,
            user_stats,
            fuel_overflow,
            deposit_oracle_price,
        ) matches Ok(a) ==> (a.position.depositor.withdraw_requested(
            amount,
            WithdrawUnit::Token,
            (vault_equity + amount) as u64,
            a.position.vault,
            a.position.protocol,
            now,
            user_stats,
            fuel_overflow,
            deposit_oracle_price,
        ) matches Ok(b) ==> (b.position.depositor.withdrawn(
            (vault_equity + amount) as u64,
            b.position.vault,
            b.position.protocol,
            now,
            user_stats,
            fuel_overflow,
            deposit_oracle_price,
        ) matches Ok(c) ==> {
            &&& c.amount == amount
            &&& c.position.depositor.profit_share_fee_paid
                == a.position.depositor.profit_share_fee_paid
            &&& c.position.depositor.cumulative_profit_share_amount
                == a.position.depositor.cumulative_profit_share_amount
            &&& b.position.depositor.vault_shares == a.position.depositor.vault_shares
            &&& (no_gain_at_deposit(depositor, vault_equity, vault, vault_protocol, now)
                ==> c.position.depositor.profit_share_fee_paid == depositor.profit_share_fee_paid)
        })),
{
    let equity_after: u64 = (vault_equity + amount) as u64;
    lemma_deposit_ready_to_return(
        depositor,
        amount,
        vault_equity,
        vault,
        vault_protocol,
        now,
        user_stats,
        fuel_overflow,
        deposit_oracle_price,
    );
    match depositor.deposited(
        amount,
        vault_equity,
        vault,
        vault_protocol,
        now,
        user_stats,
        fuel_overflow,
        deposit_oracle_price,
    ) {
        Err(_) => {},
        Ok(a) => {
            let n_shares: int = shares_worth(amount, a.position.vault.total_shares, equity_after);
            lemma_request_when_ready(
                a.position.depositor,
                n_shares,
                amount,
                equity_after,
                a.position.vault,
                a.position.protocol,
                now,
                user_stats,
                fuel_overflow,
                deposit_oracle_price,
            );
            match a.position.depositor.withdraw_requested(
                amount,
                WithdrawUnit::Token,
                equity_after,
                a.position.vault,
                a.position.protocol,
                now,
                user_stats,
                fuel_overflow,
                deposit_oracle_price,
            ) {
                Err(_) => {},
                Ok(b) => {
                    lemma_withdraw_when_ready(
                        b.position.depositor,
                        amount,
                        equity_after,
                        b.position.vault,
                        b.position.protocol,
                        now,
                        user_stats,
                        fuel_overflow,
                        deposit_oracle_price,
                    );
                },
            }
        },
    }
}

} // verus!
