//! What every operation keeps: the shares add up, the high-water mark does not fall, and the
//! base does not go back.

use crate::proofs::bases::{lemma_shares_in_raised_base, places_between, shares_in_vault_base};
use crate::proofs::stages::{
    lemma_depositor_rebased, lemma_fee_applied, lemma_fuel_settled, lemma_profit_share_applied,
    lemma_vault_rebased,
};
use crate::state::fuel::{FuelOverflow, UserStats};
use crate::state::position::Position;
use crate::state::vault::Vault;
use crate::state::vault_depositor::VaultDepositor;
use crate::state::vault_protocol::VaultProtocol;
use crate::state::withdraw_unit::WithdrawUnit;
use vstd::arithmetic::power::lemma_pow0;
use vstd::prelude::*;

verus! {

/// What holds between a position and the position that an operation has made of it.
///
/// The base has not gone back. A vault with a protocol still has one. Where the depositors
/// and the protocol held no more than all the shares, they still do, so that the total is the
/// sum of the depositors', the protocol's and the manager's shares. The depositor's high-water
/// mark has not fallen. And where the base has stayed and the depositor was in it, the
/// depositor still is, and `user_shares` has moved by what the depositor's shares have moved
/// by.
pub open spec fn kept(before: Position, after: Position) -> bool {
    &&& after.vault.shares_base >= before.vault.shares_base
    &&& (after.protocol is Some <==> before.protocol is Some)
    &&& (before.vault.shares_consistent(before.protocol) ==> after.vault.shares_consistent(
        after.protocol,
    ))
    &&& after.depositor.cumulative_profit_share_amount
        >= before.depositor.cumulative_profit_share_amount
    &&& (after.vault.shares_base == before.vault.shares_base && before.depositor.base_valid(
        before.vault,
    ) ==> after.depositor.base_valid(after.vault) && after.vault.user_shares
        - before.vault.user_shares == after.depositor.vault_shares
        - before.depositor.vault_shares)
}

/// What holds between a position and the position that an operation has made of it, whatever
/// has become of the base.
///
/// Where the depositor's base was not ahead of the vault's, it still is not, and
/// `user_shares` is what it was, counted in the new base, and as much more or less as the
/// depositor's shares are more or less than they were, counted in the new base.
pub open spec fn carried(before: Position, after: Position) -> bool {
    before.depositor.vault_shares_base <= before.vault.shares_base ==> {
        &&& before.vault.shares_base <= after.vault.shares_base
        &&& after.depositor.vault_shares_base <= after.vault.shares_base
        &&& after.vault.user_shares - before.vault.user_shares as int / places_between(
            before.vault,
            after.vault,
        ) == shares_in_vault_base(after.depositor, after.vault) - shares_in_vault_base(
            before.depositor,
            before.vault,
        ) / places_between(before.vault, after.vault)
    }
}

/// The depositor's rebase carries the position, and leaves the depositor in the vault's
/// base.
proof fn lemma_rebased_carried(
    depositor: VaultDepositor,
    vault: Vault,
    vault_protocol: Option<VaultProtocol>,
    vault_equity: u64,
)
    ensures
        depositor.rebased(vault, vault_protocol, vault_equity) matches Ok(r) ==> {
            &&& carried(Position { depositor, vault, protocol: vault_protocol }, r.position)
            &&& r.position.depositor.base_valid(r.position.vault)
            &&& r.position.vault.shares_base >= vault.shares_base
            &&& shares_in_vault_base(r.position.depositor, r.position.vault)
                == r.position.depositor.vault_shares
        },
{
    lemma_depositor_rebased(depositor, vault, vault_protocol, vault_equity);
    lemma_vault_rebased(vault, vault_protocol, vault_equity);
    lemma_pow0(10);
    match depositor.rebased(vault, vault_protocol, vault_equity) {
        Err(_) => {},
        Ok(r) => {
            if depositor.vault_shares_base <= vault.shares_base {
                lemma_shares_in_raised_base(depositor, vault, r.position.vault);
            }
        },
    }
}

/// A position that the depositor's rebase has carried, and that has then moved `user_shares`
/// and the depositor's shares by the same number in the same base, is carried.
proof fn lemma_carried_on(before: Position, rebased: Position, after: Position)
    requires
        carried(before, rebased),
        rebased.depositor.base_valid(rebased.vault),
        after.depositor.base_valid(after.vault),
        after.vault.shares_base == rebased.vault.shares_base,
        after.vault.user_shares - rebased.vault.user_shares == after.depositor.vault_shares
            - rebased.depositor.vault_shares,
    ensures
        carried(before, after),
{
    lemma_pow0(10);
}

/// Where the base has stayed and the depositor was in it, what `kept` states is what
/// `carried` states.
proof fn lemma_kept_is_carried(before: Position, after: Position)
    requires
        kept(before, after),
        before.depositor.base_valid(before.vault),
        after.vault.shares_base == before.vault.shares_base,
    ensures
        carried(before, after),
{
    lemma_pow0(10);
}

/// Fuel and profit share together keep what `lemma_profit_share_applied` states of profit
/// share alone.
proof fn lemma_fuel_and_profit_share_settled(
    depositor: VaultDepositor,
    vault_equity: u64,
    vault: Vault,
    vault_protocol: Option<VaultProtocol>,
    now: i64,
    user_stats: UserStats,
    fuel_overflow: Option<FuelOverflow>,
)
    ensures
        depositor.fuel_and_profit_share_settled(
            vault_equity,
            vault,
            vault_protocol,
            now,
            user_stats,
            fuel_overflow,
        ) matches Ok(r) ==> {
            &&& depositor.base_valid(vault)
            &&& kept(Position { depositor, vault, protocol: vault_protocol }, r.position)
            &&& r.position.vault.shares_base == vault.shares_base
            &&& r.position.vault.total_shares == vault.total_shares
            &&& r.position.vault.total_withdraw_requested == vault.total_withdraw_requested
            &&& r.position.vault.net_deposits == vault.net_deposits
            &&& r.position.vault.redeem_period == vault.redeem_period
            &&& r.position.vault.liquidation_delegate == vault.liquidation_delegate
            &&& r.position.depositor.last_withdraw_request == depositor.last_withdraw_request
            &&& r.position.depositor.net_deposits == depositor.net_deposits
            &&& r.position.depositor.authority == depositor.authority
            &&& r.position.depositor.vault_shares <= depositor.vault_shares
        },
{
    lemma_fuel_settled(depositor, now, vault, user_stats, fuel_overflow);
    match depositor.fuel_settled(now, vault, user_stats, fuel_overflow) {
        Err(_) => {},
        Ok(settled) => {
            lemma_profit_share_applied(
                settled.depositor,
                vault_equity,
                settled.vault,
                vault_protocol,
            );
        },
    }
}

/// A deposit keeps what `kept` states.
pub proof fn lemma_deposit_kept(
    depositor: VaultDepositor,
    amount: u64,
    vault_equity: u64,
    vault: Vault,
    vault_protocol: Option<VaultProtocol>,
    now: i64,
    user_stats: UserStats,
    fuel_overflow: Option<FuelOverflow>,
    deposit_oracle_price: i64,
)
    ensures
        depositor.deposited(
            amount,
            vault_equity,
            vault,
            vault_protocol,
            now,
            user_stats,
            fuel_overflow,
            deposit_oracle_price,
        ) matches Ok(r) ==> kept(
            Position { depositor, vault, protocol: vault_protocol },
            r.position,
        ) && carried(Position { depositor, vault, protocol: vault_protocol }, r.position),
{
    lemma_depositor_rebased(depositor, vault, vault_protocol, vault_equity);
    lemma_vault_rebased(vault, vault_protocol, vault_equity);
    lemma_rebased_carried(depositor, vault, vault_protocol, vault_equity);
    match depositor.rebased(vault, vault_protocol, vault_equity) {
        Err(_) => {},
        Ok(rebased) => {
            lemma_fee_applied(
                rebased.position.vault,
                rebased.position.protocol,
                vault_equity,
                now,
            );
            match rebased.position.vault.fee_applied(
                rebased.position.protocol,
                vault_equity,
                now,
            ) {
                Err(_) => {},
                Ok(charged) => {
                    lemma_fuel_and_profit_share_settled(
                        rebased.position.depositor,
                        vault_equity,
                        charged.vault,
                        charged.protocol,
                        now,
                        user_stats,
                        fuel_overflow,
                    );
                    match depositor.deposited(
                        amount,
                        vault_equity,
                        vault,
                        vault_protocol,
                        now,
                        user_stats,
                        fuel_overflow,
                        deposit_oracle_price,
                    ) {
                        Err(_) => {},
                        Ok(r) => {
                            lemma_carried_on(
                                Position { depositor, vault, protocol: vault_protocol },
                                rebased.position,
                                r.position,
                            );
                        },
                    }
                },
            }
        },
    }
}

/// A withdraw request keeps what `kept` states, and moves no shares.
pub proof fn lemma_request_withdraw_kept(
    depositor: VaultDepositor,
    withdraw_amount: u64,
    withdraw_unit: WithdrawUnit,
    vault_equity: u64,
    vault: Vault,
    vault_protocol: Option<VaultProtocol>,
    now: i64,
    user_stats: UserStats,
    fuel_overflow: Option<FuelOverflow>,
    deposit_oracle_price: i64,
)
    ensures
        depositor.withdraw_requested(
            withdraw_amount,
            withdraw_unit,
            vault_equity,
            vault,
            vault_protocol,
            now,
            user_stats,
            fuel_overflow,
            deposit_oracle_price,
        ) matches Ok(r) ==> kept(
            Position { depositor, vault, protocol: vault_protocol },
            r.position,
        ) && carried(Position { depositor, vault, protocol: vault_protocol }, r.position)
            && r.position.depositor.last_withdraw_request.is_pending(),
{
    lemma_depositor_rebased(depositor, vault, vault_protocol, vault_equity);
    lemma_rebased_carried(depositor, vault, vault_protocol, vault_equity);
    lemma_vault_rebased(vault, vault_protocol, vault_equity);
    match depositor.rebased(vault, vault_protocol, vault_equity) {
        Err(_) => {},
        Ok(rebased) => {
            lemma_fee_applied(
                rebased.position.vault,
                rebased.position.protocol,
                vault_equity,
                now,
            );
            match rebased.position.vault.fee_applied(
                rebased.position.protocol,
                vault_equity,
                now,
            ) {
                Err(_) => {},
                Ok(charged) => {
                    lemma_fuel_and_profit_share_settled(
                        rebased.position.depositor,
                        vault_equity,
                        charged.vault,
                        charged.protocol,
                        now,
                        user_stats,
                        fuel_overflow,
                    );
                },
            }
        },
    }
    match depositor.rebased(vault, vault_protocol, vault_equity) {
        Err(_) => {},
        Ok(rebased) => {
            match depositor.withdraw_requested(
                withdraw_amount,
                withdraw_unit,
                vault_equity,
                vault,
                vault_protocol,
                now,
                user_stats,
                fuel_overflow,
                deposit_oracle_price,
            ) {
                Err(_) => {},
                Ok(r) => {
                    lemma_carried_on(
                        Position { depositor, vault, protocol: vault_protocol },
                        rebased.position,
                        r.position,
                    );
                },
            }
        },
    }
}

/// Cancelling a withdraw request keeps what `kept` states, and leaves no request pending.
pub proof fn lemma_cancel_withdraw_request_kept(
    depositor: VaultDepositor,
    vault_equity: u64,
    vault: Vault,
    vault_protocol: Option<VaultProtocol>,
    now: i64,
    user_stats: UserStats,
    fuel_overflow: Option<FuelOverflow>,
    deposit_oracle_price: i64,
)
    ensures
        depositor.withdraw_request_cancelled(
            vault_equity,
            vault,
            vault_protocol,
            now,
            user_stats,
            fuel_overflow,
            deposit_oracle_price,
        ) matches Ok(r) ==> kept(
            Position { depositor, vault, protocol: vault_protocol },
            r.position,
        ) && carried(Position { depositor, vault, protocol: vault_protocol }, r.position)
            && !r.position.depositor.last_withdraw_request.is_pending(),
{
    lemma_depositor_rebased(depositor, vault, vault_protocol, vault_equity);
    lemma_rebased_carried(depositor, vault, vault_protocol, vault_equity);
    lemma_vault_rebased(vault, vault_protocol, vault_equity);
    match depositor.rebased(vault, vault_protocol, vault_equity) {
        Err(_) => {},
        Ok(rebased) => {
            lemma_fee_applied(
                rebased.position.vault,
                rebased.position.protocol,
                vault_equity,
                now,
            );
            match rebased.position.vault.fee_applied(
                rebased.position.protocol,
                vault_equity,
                now,
            ) {
                Err(_) => {},
                Ok(charged) => {
                    lemma_fuel_settled(
                        rebased.position.depositor,
                        now,
                        charged.vault,
                        user_stats,
                        fuel_overflow,
                    );
                },
            }
        },
    }
    match depositor.rebased(vault, vault_protocol, vault_equity) {
        Err(_) => {},
        Ok(rebased) => {
            match depositor.withdraw_request_cancelled(
                vault_equity,
                vault,
                vault_protocol,
                now,
                user_stats,
                fuel_overflow,
                deposit_oracle_price,
            ) {
                Err(_) => {},
                Ok(r) => {
                    lemma_carried_on(
                        Position { depositor, vault, protocol: vault_protocol },
                        rebased.position,
                        r.position,
                    );
                },
            }
        },
    }
}

/// A withdrawal keeps what `kept` states, and leaves no request pending.
pub proof fn lemma_withdraw_kept(
    depositor: VaultDepositor,
    vault_equity: u64,
    vault: Vault,
    vault_protocol: Option<VaultProtocol>,
    now: i64,
    user_stats: UserStats,
    fuel_overflow: Option<FuelOverflow>,
    deposit_oracle_price: i64,
)
    ensures
        depositor.withdrawn(
            vault_equity,
            vault,
            vault_protocol,
            now,
            user_stats,
            fuel_overflow,
            deposit_oracle_price,
        ) matches Ok(r) ==> kept(
            Position { depositor, vault, protocol: vault_protocol },
            r.position,
        ) && carried(Position { depositor, vault, protocol: vault_protocol }, r.position)
            && !r.position.depositor.last_withdraw_request.is_pending(),
{
    lemma_depositor_rebased(depositor, vault, vault_protocol, vault_equity);
    lemma_rebased_carried(depositor, vault, vault_protocol, vault_equity);
    lemma_vault_rebased(vault, vault_protocol, vault_equity);
    match depositor.rebased(vault, vault_protocol, vault_equity) {
        Err(_) => {},
        Ok(rebased) => {
            lemma_fuel_settled(
                rebased.position.depositor,
                now,
                rebased.position.vault,
                user_stats,
                fuel_overflow,
            );
            match rebased.position.depositor.fuel_settled(
                now,
                rebased.position.vault,
                user_stats,
                fuel_overflow,
            ) {
                Err(_) => {},
                Ok(settled) => {
                    lemma_fee_applied(settled.vault, rebased.position.protocol, vault_equity, now);
                },
            }
        },
    }
    match depositor.rebased(vault, vault_protocol, vault_equity) {
        Err(_) => {},
        Ok(rebased) => {
            match depositor.withdrawn(
                vault_equity,
                vault,
                vault_protocol,
                now,
                user_stats,
                fuel_overflow,
                deposit_oracle_price,
            ) {
                Err(_) => {},
                Ok(r) => {
                    lemma_carried_on(
                        Position { depositor, vault, protocol: vault_protocol },
                        rebased.position,
                        r.position,
                    );
                },
            }
        },
    }
}

/// Realizing profits keeps what `kept` states.
pub proof fn lemma_realize_profits_kept(
    depositor: VaultDepositor,
    vault_equity: u64,
    vault: Vault,
    vault_protocol: Option<VaultProtocol>,
    now: i64,
    user_stats: UserStats,
    fuel_overflow: Option<FuelOverflow>,
    deposit_oracle_price: i64,
)
    ensures
        depositor.profits_realized(
            vault_equity,
            vault,
            vault_protocol,
            now,
            user_stats,
            fuel_overflow,
            deposit_oracle_price,
        ) matches Ok(r) ==> kept(
            Position { depositor, vault, protocol: vault_protocol },
            r.position,
        ) && carried(Position { depositor, vault, protocol: vault_protocol }, r.position),
{
    lemma_fee_applied(vault, vault_protocol, vault_equity, now);
    match vault.fee_applied(vault_protocol, vault_equity, now) {
        Err(_) => {},
        Ok(charged) => {
            lemma_fuel_and_profit_share_settled(
                depositor,
                vault_equity,
                charged.vault,
                charged.protocol,
                now,
                user_stats,
                fuel_overflow,
            );
            match depositor.profits_realized(
                vault_equity,
                vault,
                vault_protocol,
                now,
                user_stats,
                fuel_overflow,
                deposit_oracle_price,
            ) {
                Err(_) => {},
                Ok(r) => {
                    if depositor.vault_shares_base <= vault.shares_base {
                        lemma_kept_is_carried(
                            Position { depositor, vault, protocol: vault_protocol },
                            r.position,
                        );
                    }
                },
            }
        },
    }
}

/// The annual fees alone keep what `kept` states, for every depositor of the vault.
pub proof fn lemma_apply_fee_kept(
    depositor: VaultDepositor,
    vault_equity: u64,
    vault: Vault,
    vault_protocol: Option<VaultProtocol>,
    now: i64,
)
    ensures
        vault.fee_applied(vault_protocol, vault_equity, now) matches Ok(r) ==> kept(
            Position { depositor, vault, protocol: vault_protocol },
            Position { depositor, vault: r.vault, protocol: r.protocol },
        ) && carried(
            Position { depositor, vault, protocol: vault_protocol },
            Position { depositor, vault: r.vault, protocol: r.protocol },
        ),
{
    lemma_fee_applied(vault, vault_protocol, vault_equity, now);
    match vault.fee_applied(vault_protocol, vault_equity, now) {
        Err(_) => {},
        Ok(r) => {
            if depositor.vault_shares_base <= vault.shares_base {
                lemma_shares_in_raised_base(depositor, vault, r.vault);
            }
        },
    }
}

} // verus!
