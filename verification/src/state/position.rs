//! A depositor's record together with the vault it belongs to: what one operation works on.

use crate::error::ErrorCode;
use crate::math::{
    amount_for_shares, cast_u128_to_u64, checked_pow10, depositor_shares_to_vault_amount, pow10,
    safe_add_u128, safe_add_u64, safe_sub_u128, shares_for_amount, to_u128,
    vault_amount_to_depositor_shares,
};
use crate::proofs::stages::lemma_profit_share_applied;
use crate::state::events::{
    Events, FuelSeasonRecord, Record, Shares, VaultDepositorAction, VaultDepositorV1Record,
};
use crate::state::fuel::{FuelOverflow, UserStats};
use crate::state::vault::{saturating_u64, Vault, VaultFee};
use crate::state::vault_depositor::VaultDepositor;
use crate::state::vault_protocol::{protocol_shares, VaultProtocol};
use crate::state::withdraw_request::WithdrawRequest;
use vstd::prelude::*;

verus! {

/// A depositor, its vault, and the vault's protocol where it has one.
pub struct Position {
    pub depositor: VaultDepositor,
    pub vault: Vault,
    pub protocol: Option<VaultProtocol>,
}

/// A position after an operation, with what the operation hands back to be published.
pub struct Outcome {
    pub position: Position,
    pub events: Events,
}

impl Position {
    /// The shares of the position.
    pub open spec fn shares(self) -> Shares {
        Shares {
            depositor: self.depositor.vault_shares,
            user: self.vault.user_shares,
            total: self.vault.total_shares,
            protocol: protocol_shares(self.protocol),
        }
    }

    /// The record of an operation that found the shares as `before` and leaves the position
    /// as `self`.
    pub open spec fn record(
        self,
        action: VaultDepositorAction,
        now: i64,
        amount: u64,
        vault_equity: u64,
        before: Shares,
        manager_profit_share: u64,
        protocol_profit_share: u64,
        fee: VaultFee,
        deposit_oracle_price: i64,
    ) -> Record {
        Record::of(
            self.protocol is Some,
            VaultDepositorV1Record {
                ts: now,
                vault: self.vault.pubkey,
                depositor_authority: self.depositor.authority,
                action,
                amount,
                spot_market_index: self.vault.spot_market_index,
                vault_shares_before: before.depositor,
                vault_shares_after: self.depositor.vault_shares,
                vault_equity_before: vault_equity,
                user_vault_shares_before: before.user,
                total_vault_shares_before: before.total,
                user_vault_shares_after: self.vault.user_shares,
                total_vault_shares_after: self.vault.total_shares,
                protocol_shares_before: before.protocol,
                protocol_shares_after: protocol_shares(self.protocol),
                protocol_profit_share,
                protocol_fee: fee.protocol_fee_payment,
                protocol_fee_shares: fee.protocol_fee_shares,
                manager_profit_share,
                management_fee: fee.management_fee_payment,
                management_fee_shares: fee.management_fee_shares,
                deposit_oracle_price,
            },
        )
    }
}

/// The shares of a position.
pub fn shares_of(
    depositor: &VaultDepositor,
    vault: &Vault,
    vault_protocol: &Option<VaultProtocol>,
) -> (r: Shares)
    ensures
        r == (Position {
            depositor: *depositor,
            vault: *vault,
            protocol: *vault_protocol,
        }).shares(),
{
    Shares {
        depositor: depositor.vault_shares,
        user: vault.user_shares,
        total: vault.total_shares,
        protocol: vault.get_protocol_shares(vault_protocol),
    }
}

/// The record of an operation that found the shares as `before` and leaves the position as
/// given.
pub fn record_of(
    depositor: &VaultDepositor,
    vault: &Vault,
    vault_protocol: &Option<VaultProtocol>,
    action: VaultDepositorAction,
    now: i64,
    amount: u64,
    vault_equity: u64,
    before: Shares,
    manager_profit_share: u64,
    protocol_profit_share: u64,
    fee: VaultFee,
    deposit_oracle_price: i64,
) -> (r: Record)
    ensures
        r == (Position {
            depositor: *depositor,
            vault: *vault,
            protocol: *vault_protocol,
        }).record(
            action,
            now,
            amount,
            vault_equity,
            before,
            manager_profit_share,
            protocol_profit_share,
            fee,
            deposit_oracle_price,
        ),
{
    Record::new(
        vault_protocol.is_some(),
        VaultDepositorV1Record {
            ts: now,
            vault: vault.pubkey,
            depositor_authority: depositor.authority,
            action,
            amount,
            spot_market_index: vault.spot_market_index,
            vault_shares_before: before.depositor,
            vault_shares_after: depositor.vault_shares,
            vault_equity_before: vault_equity,
            user_vault_shares_before: before.user,
            total_vault_shares_before: before.total,
            user_vault_shares_after: vault.user_shares,
            total_vault_shares_after: vault.total_shares,
            protocol_shares_before: before.protocol,
            protocol_shares_after: vault.get_protocol_shares(vault_protocol),
            protocol_profit_share,
            protocol_fee: fee.protocol_fee_payment,
            protocol_fee_shares: fee.protocol_fee_shares,
            manager_profit_share,
            management_fee: fee.management_fee_payment,
            management_fee_shares: fee.management_fee_shares,
            deposit_oracle_price,
        },
    )
}

/// A position after a rebase, with the divisor by which the depositor's shares were cut back.
pub struct PositionRebased {
    pub position: Position,
    pub divisor: Option<u128>,
}

/// A position after profit share, with the manager's and the protocol's part of it and the
/// record of the depositor's fuel season ending, where it has.
pub struct ProfitShared {
    pub position: Position,
    pub manager: u64,
    pub protocol: u64,
    pub season: Option<FuelSeasonRecord>,
}

/// The protocol after profit share of `amount`, paid in `shares` shares.
pub open spec fn protocol_profit_shared(
    vault_protocol: Option<VaultProtocol>,
    amount: u64,
    shares: u128,
) -> Result<Option<VaultProtocol>, ErrorCode> {
    match vault_protocol {
        None => Ok(None),
        Some(vp) => match to_u128(vp.protocol_profit_and_fee_shares + shares) {
            Err(e) => Err(e),
            Ok(held) => Ok(
                Some(
                    VaultProtocol {
                        protocol_total_profit_share: saturating_u64(
                            vp.protocol_total_profit_share,
                            amount,
                        ),
                        protocol_profit_and_fee_shares: held,
                        ..vp
                    },
                ),
            ),
        },
    }
}

impl VaultDepositor {
    /// The position after the vault's rebase and the depositor's catching up with it.
    ///
    /// A depositor whose base is behind the vault's has its shares, and the shares of its
    /// withdraw request, divided by ten for each place that it is behind. One whose base is
    /// ahead of the vault's is refused.
    pub open spec fn rebased(
        self,
        vault: Vault,
        vault_protocol: Option<VaultProtocol>,
        vault_equity: u64,
    ) -> Result<PositionRebased, ErrorCode> {
        match vault.rebased(vault_protocol, vault_equity) {
            Err(e) => Err(e),
            Ok(v) => if v.vault.shares_base == self.vault_shares_base {
                Ok(
                    PositionRebased {
                        position: Position {
                            depositor: self,
                            vault: v.vault,
                            protocol: v.protocol,
                        },
                        divisor: None,
                    },
                )
            } else if v.vault.shares_base < self.vault_shares_base {
                Err(ErrorCode::InvalidVaultRebase)
            } else {
                match pow10((v.vault.shares_base - self.vault_shares_base) as u32) {
                    Err(e) => Err(e),
                    Ok(divisor) => Ok(
                        PositionRebased {
                            position: Position {
                                depositor: VaultDepositor {
                                    vault_shares_base: v.vault.shares_base,
                                    vault_shares: self.vault_shares / divisor,
                                    last_withdraw_request: WithdrawRequest {
                                        shares: self.last_withdraw_request.shares / divisor,
                                        ..self.last_withdraw_request
                                    },
                                    ..self
                                },
                                vault: v.vault,
                                protocol: v.protocol,
                            },
                            divisor: Some(divisor),
                        },
                    ),
                }
            },
        }
    }

    /// The position after the depositor's profit share at the price that `vault_equity` gives.
    ///
    /// The gain is worked out on what the depositor's shares are worth. The manager's and the
    /// protocol's part together are taken from the depositor in shares at that price, rounded
    /// down, and leave `user_shares` with them; the protocol is given the shares that its own
    /// part is worth, and the manager has the rest by `total_shares` staying as it is.
    pub open spec fn profit_share_applied(
        self,
        vault_equity: u64,
        vault: Vault,
        vault_protocol: Option<VaultProtocol>,
    ) -> Result<ProfitShared, ErrorCode> {
        match amount_for_shares(self.vault_shares, vault.total_shares, vault_equity) {
            Err(e) => Err(e),
            Ok(total_amount) => match self.profit_share_charged(
                total_amount,
                vault,
                vault_protocol,
            ) {
                Err(e) => Err(e),
                Ok(charged) => match shares_for_amount(
                    (charged.manager + charged.protocol) as u64,
                    vault.total_shares,
                    vault_equity,
                ) {
                    Err(e) => Err(e),
                    Ok(shares) => match shares_for_amount(
                        charged.protocol as u64,
                        vault.total_shares,
                        vault_equity,
                    ) {
                        Err(e) => Err(e),
                        Ok(protocol_shares) => match charged.depositor.with_shares(
                            charged.depositor.vault_shares - shares,
                            vault,
                        ) {
                            Err(e) => Err(e),
                            Ok(depositor) => match to_u128(vault.user_shares - shares) {
                                Err(e) => Err(e),
                                Ok(user_shares) => match protocol_profit_shared(
                                    vault_protocol,
                                    charged.protocol as u64,
                                    protocol_shares,
                                ) {
                                    Err(e) => Err(e),
                                    Ok(protocol) => Ok(
                                        ProfitShared {
                                            position: Position {
                                                depositor,
                                                vault: Vault {
                                                    user_shares,
                                                    manager_total_profit_share: saturating_u64(
                                                        vault.manager_total_profit_share,
                                                        charged.manager as u64,
                                                    ),
                                                    ..vault
                                                },
                                                protocol,
                                            },
                                            manager: charged.manager as u64,
                                            protocol: charged.protocol as u64,
                                            season: None,
                                        },
                                    ),
                                },
                            },
                        },
                    },
                },
            },
        }
    }

    /// The position after fuel and profit share were settled for a depositor without a pending
    /// withdraw request. With one pending, `InvalidVaultDeposit`.
    pub open spec fn profit_share_settled(
        self,
        vault_equity: u64,
        vault: Vault,
        vault_protocol: Option<VaultProtocol>,
        now: i64,
        user_stats: UserStats,
        fuel_overflow: Option<FuelOverflow>,
    ) -> Result<ProfitShared, ErrorCode> {
        if self.last_withdraw_request.is_pending() {
            Err(ErrorCode::InvalidVaultDeposit)
        } else {
            self.fuel_and_profit_share_settled(
                vault_equity,
                vault,
                vault_protocol,
                now,
                user_stats,
                fuel_overflow,
            )
        }
    }

    /// The position after fuel was settled and profit share applied.
    pub open spec fn fuel_and_profit_share_settled(
        self,
        vault_equity: u64,
        vault: Vault,
        vault_protocol: Option<VaultProtocol>,
        now: i64,
        user_stats: UserStats,
        fuel_overflow: Option<FuelOverflow>,
    ) -> Result<ProfitShared, ErrorCode> {
        match self.fuel_settled(now, vault, user_stats, fuel_overflow) {
            Err(e) => Err(e),
            Ok(settled) => match settled.depositor.profit_share_applied(
                vault_equity,
                settled.vault,
                vault_protocol,
            ) {
                Err(e) => Err(e),
                Ok(shared) => Ok(ProfitShared { season: settled.season, ..shared }),
            },
        }
    }

    /// Rebases the vault where `vault_equity` calls for it, and brings the depositor's shares
    /// and withdraw request into the vault's base. Returns the divisor by which the
    /// depositor's shares were cut back, if they were.
    pub fn apply_rebase(
        &mut self,
        vault: &mut Vault,
        vault_protocol: &mut Option<VaultProtocol>,
        vault_equity: u64,
    ) -> (r: Result<Option<u128>, ErrorCode>)
        ensures
            match r {
                Ok(divisor) => old(self).rebased(*old(vault), *old(vault_protocol), vault_equity)
                    == Ok::<PositionRebased, ErrorCode>(
                    PositionRebased {
                        position: Position {
                            depositor: *final(self),
                            vault: *final(vault),
                            protocol: *final(vault_protocol),
                        },
                        divisor,
                    },
                ) && final(self).base_valid(*final(vault)),
                Err(e) => old(self).rebased(*old(vault), *old(vault_protocol), vault_equity)
                    == Err::<PositionRebased, ErrorCode>(e) && *final(self) == *old(self)
                    && *final(vault) == *old(vault)
                    && *final(vault_protocol) == *old(vault_protocol),
            },
    {
        let mut v: Vault = *vault;
        let mut p: Option<VaultProtocol> = *vault_protocol;
        v.apply_rebase(&mut p, vault_equity)?;
        let mut d: VaultDepositor = *self;
        let mut divisor: Option<u128> = None;
        if v.shares_base != d.vault_shares_base {
            if v.shares_base < d.vault_shares_base {
                return Err(ErrorCode::InvalidVaultRebase);
            }
            let behind: u32 = v.shares_base - d.vault_shares_base;
            let by: u128 = checked_pow10(behind)?;
            d.vault_shares_base = v.shares_base;
            d.vault_shares = d.vault_shares / by;
            d.last_withdraw_request.shares = d.last_withdraw_request.shares / by;
            divisor = Some(by);
        }
        *self = d;
        *vault = v;
        *vault_protocol = p;
        Ok(divisor)
    }

    /// Charges the depositor's profit share at the price that `vault_equity` gives, and returns
    /// the manager's and the protocol's part.
    pub fn charge_profit_share(
        &mut self,
        vault_equity: u64,
        vault: &mut Vault,
        vault_protocol: &mut Option<VaultProtocol>,
    ) -> (r: Result<(u64, u64), ErrorCode>)
        ensures
            match r {
                Ok(parts) => old(self).profit_share_applied(
                    vault_equity,
                    *old(vault),
                    *old(vault_protocol),
                ) == Ok::<ProfitShared, ErrorCode>(
                    ProfitShared {
                        position: Position {
                            depositor: *final(self),
                            vault: *final(vault),
                            protocol: *final(vault_protocol),
                        },
                        manager: parts.0,
                        protocol: parts.1,
                        season: None,
                    },
                ),
                Err(e) => old(self).profit_share_applied(
                    vault_equity,
                    *old(vault),
                    *old(vault_protocol),
                ) == Err::<ProfitShared, ErrorCode>(e) && *final(self) == *old(self) && *final(vault)
                    == *old(vault) && *final(vault_protocol) == *old(vault_protocol),
            },
            final(self).cumulative_profit_share_amount >= old(self).cumulative_profit_share_amount,
            old(vault).shares_consistent(*old(vault_protocol)) ==> final(vault).shares_consistent(
                *final(vault_protocol),
            ),
            final(vault).user_shares - old(vault).user_shares == final(self).vault_shares
                - old(self).vault_shares,
    {
        proof {
            lemma_profit_share_applied(*self, vault_equity, *vault, *vault_protocol);
        }
        let total_amount: u64 = depositor_shares_to_vault_amount(
            self.vault_shares,
            vault.total_shares,
            vault_equity,
        )?;
        let mut d: VaultDepositor = *self;
        let (manager_part, protocol_part): (u128, u128) = d.calculate_profit_share_and_update(
            total_amount,
            vault,
            vault_protocol,
        )?;
        let manager: u64 = cast_u128_to_u64(manager_part)?;
        let protocol: u64 = cast_u128_to_u64(protocol_part)?;
        let profit_share: u64 = safe_add_u64(manager, protocol)?;
        let shares: u128 = vault_amount_to_depositor_shares(
            profit_share,
            vault.total_shares,
            vault_equity,
        )?;
        let protocol_shares: u128 = vault_amount_to_depositor_shares(
            protocol,
            vault.total_shares,
            vault_equity,
        )?;
        d.decrease_vault_shares(shares, vault)?;
        let mut v: Vault = *vault;
        v.user_shares = safe_sub_u128(v.user_shares, shares)?;
        v.manager_total_profit_share = v.manager_total_profit_share.saturating_add(manager);
        let mut p: Option<VaultProtocol> = *vault_protocol;
        match &mut p {
            None => {},
            Some(vp) => {
                vp.protocol_profit_and_fee_shares = safe_add_u128(
                    vp.protocol_profit_and_fee_shares,
                    protocol_shares,
                )?;
                vp.protocol_total_profit_share = vp.protocol_total_profit_share.saturating_add(
                    protocol,
                );
            },
        }
        *self = d;
        *vault = v;
        *vault_protocol = p;
        Ok((manager, protocol))
    }

    /// Settles fuel and charges profit share, whether or not a withdraw request is pending.
    pub fn settle_fuel_and_profit_share(
        &mut self,
        vault_equity: u64,
        vault: &mut Vault,
        vault_protocol: &mut Option<VaultProtocol>,
        now: i64,
        user_stats: &UserStats,
        fuel_overflow: &Option<FuelOverflow>,
    ) -> (r: Result<(u64, u64, Option<FuelSeasonRecord>), ErrorCode>)
        ensures
            match r {
                Ok(out) => old(self).fuel_and_profit_share_settled(
                    vault_equity,
                    *old(vault),
                    *old(vault_protocol),
                    now,
                    *user_stats,
                    *fuel_overflow,
                ) == Ok::<ProfitShared, ErrorCode>(
                    ProfitShared {
                        position: Position {
                            depositor: *final(self),
                            vault: *final(vault),
                            protocol: *final(vault_protocol),
                        },
                        manager: out.0,
                        protocol: out.1,
                        season: out.2,
                    },
                ),
                Err(e) => old(self).fuel_and_profit_share_settled(
                    vault_equity,
                    *old(vault),
                    *old(vault_protocol),
                    now,
                    *user_stats,
                    *fuel_overflow,
                ) == Err::<ProfitShared, ErrorCode>(e) && *final(self) == *old(self) && *final(vault)
                    == *old(vault) && *final(vault_protocol) == *old(vault_protocol),
            },
    {
        let mut d: VaultDepositor = *self;
        let mut v: Vault = *vault;
        let mut p: Option<VaultProtocol> = *vault_protocol;
        let (_, season): (u128, Option<FuelSeasonRecord>) = d.update_cumulative_fuel_amount(
            now,
            &mut v,
            user_stats,
            fuel_overflow,
        )?;
        let (manager, protocol): (u64, u64) = d.charge_profit_share(vault_equity, &mut v, &mut p)?;
        *self = d;
        *vault = v;
        *vault_protocol = p;
        Ok((manager, protocol, season))
    }

    /// Settles fuel and charges profit share for a depositor without a pending withdraw
    /// request. Returns the manager's and the protocol's part, and the record of the
    /// depositor's fuel season ending where it has.
    pub fn apply_profit_share(
        &mut self,
        vault_equity: u64,
        vault: &mut Vault,
        vault_protocol: &mut Option<VaultProtocol>,
        now: i64,
        user_stats: &UserStats,
        fuel_overflow: &Option<FuelOverflow>,
    ) -> (r: Result<(u64, u64, Option<FuelSeasonRecord>), ErrorCode>)
        ensures
            match r {
                Ok(out) => old(self).profit_share_settled(
                    vault_equity,
                    *old(vault),
                    *old(vault_protocol),
                    now,
                    *user_stats,
                    *fuel_overflow,
                ) == Ok::<ProfitShared, ErrorCode>(
                    ProfitShared {
                        position: Position {
                            depositor: *final(self),
                            vault: *final(vault),
                            protocol: *final(vault_protocol),
                        },
                        manager: out.0,
                        protocol: out.1,
                        season: out.2,
                    },
                ),
                Err(e) => old(self).profit_share_settled(
                    vault_equity,
                    *old(vault),
                    *old(vault_protocol),
                    now,
                    *user_stats,
                    *fuel_overflow,
                ) == Err::<ProfitShared, ErrorCode>(e) && *final(self) == *old(self) && *final(vault)
                    == *old(vault) && *final(vault_protocol) == *old(vault_protocol),
            },
    {
        if self.last_withdraw_request.pending() {
            return Err(ErrorCode::InvalidVaultDeposit);
        }
        self.settle_fuel_and_profit_share(
            vault_equity,
            vault,
            vault_protocol,
            now,
            user_stats,
            fuel_overflow,
        )
    }
}

} // verus!
