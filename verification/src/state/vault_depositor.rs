//! A depositor's record: the shares it owns, its pending withdrawal, what it has paid profit
//! share on, and the fuel it has earned.

use crate::constants::{FUEL_SHARE_PRECISION, MAGIC_FUEL_START_TS, PERCENTAGE_PRECISION};
use crate::error::ErrorCode;
use crate::keys::{default_key, key_bytes, null_key_bytes};
use crate::math::{
    cast_u128_to_u64, cast_u64_to_i64, get_proportion_u128, mul_div, proportion,
    safe_add_i64, safe_add_u128, safe_add_u64, safe_sub_i64, safe_sub_u128, to_i64, to_u128,
    to_u64,
};
use crate::state::events::FuelSeasonRecord;
use crate::state::fuel::{FuelOverflow, UserStats};
use crate::state::vault::{clock_u32, Vault};
use crate::state::vault_protocol::VaultProtocol;
use crate::state::withdraw_request::WithdrawRequest;
use anchor_lang::prelude::Pubkey;
use vstd::prelude::*;

verus! {

/// A depositor's record in one vault.
#[derive(Clone, Copy, Debug, PartialEq, Eq)]
pub struct VaultDepositor {
    /// The vault deposited into.
    pub vault: Pubkey,
    /// The record's own address.
    pub pubkey: Pubkey,
    /// Who may deposit and withdraw.
    pub authority: Pubkey,
    /// Shares owned, in the base `vault_shares_base`. They count only where that is the vault's
    /// base too: read them through `checked_vault_shares`.
    pub vault_shares: u128,
    /// The pending withdrawal, where there is one.
    pub last_withdraw_request: WithdrawRequest,
    /// When the record was made.
    pub last_valid_ts: i64,
    /// Lifetime deposits less withdrawals.
    pub net_deposits: i64,
    /// Lifetime deposits.
    pub total_deposits: u64,
    /// Lifetime withdrawals.
    pub total_withdraws: u64,
    /// Gains that profit share has been charged on. With `net_deposits` it makes the value
    /// above which further gains are charged.
    pub cumulative_profit_share_amount: i64,
    /// Lifetime profit share paid.
    pub profit_share_fee_paid: u64,
    /// Number of decimal places by which `vault_shares` have been cut back so far.
    pub vault_shares_base: u32,
    /// When fuel was last settled, in seconds that wrap at 2^32; `MAGIC_FUEL_START_TS` until the
    /// first settlement of a record made by `new`.
    pub last_fuel_update_ts: u32,
    /// The vault's fuel per share at the last settlement.
    pub cumulative_fuel_per_share_amount: u128,
    /// Fuel earned.
    pub fuel_amount: u128,
}

/// A depositor after profit share was worked out, with the manager's and the protocol's part.
pub struct ProfitShareCharged {
    pub depositor: VaultDepositor,
    pub manager: u128,
    pub protocol: u128,
}

/// A depositor and the vault after fuel was settled.
pub struct FuelSettled {
    pub depositor: VaultDepositor,
    pub vault: Vault,
    /// The record of the depositor's season ending, where it has.
    pub season: Option<FuelSeasonRecord>,
}

impl Default for VaultDepositor {
    fn default() -> (r: Self)
        ensures
            key_bytes(r.vault) == null_key_bytes(),
            key_bytes(r.pubkey) == null_key_bytes(),
            key_bytes(r.authority) == null_key_bytes(),
            r.vault_shares == 0,
            r.last_withdraw_request == WithdrawRequest::empty(0),
            r.last_valid_ts == 0,
            r.net_deposits == 0,
            r.total_deposits == 0,
            r.total_withdraws == 0,
            r.cumulative_profit_share_amount == 0,
            r.profit_share_fee_paid == 0,
            r.vault_shares_base == 0,
            r.last_fuel_update_ts == 0,
            r.cumulative_fuel_per_share_amount == 0,
            r.fuel_amount == 0,
    {
        VaultDepositor {
            vault: default_key(),
            pubkey: default_key(),
            authority: default_key(),
            vault_shares: 0,
            last_withdraw_request: WithdrawRequest::default(),
            last_valid_ts: 0,
            net_deposits: 0,
            total_deposits: 0,
            total_withdraws: 0,
            cumulative_profit_share_amount: 0,
            profit_share_fee_paid: 0,
            vault_shares_base: 0,
            last_fuel_update_ts: 0,
            cumulative_fuel_per_share_amount: 0,
            fuel_amount: 0,
        }
    }
}

/// The part of `profit` that a rate in millionths takes, rounded down.
pub open spec fn profit_part(profit: i64, rate: u32) -> int {
    mul_div(profit as int, rate as int, PERCENTAGE_PRECISION as int)
}

impl VaultDepositor {
    /// The record of a depositor who has not deposited yet.
    pub open spec fn fresh(vault: Pubkey, pubkey: Pubkey, authority: Pubkey, now: i64) -> Self {
        VaultDepositor {
            vault,
            pubkey,
            authority,
            vault_shares: 0,
            last_withdraw_request: WithdrawRequest::empty(0),
            last_valid_ts: now,
            net_deposits: 0,
            total_deposits: 0,
            total_withdraws: 0,
            cumulative_profit_share_amount: 0,
            profit_share_fee_paid: 0,
            vault_shares_base: 0,
            last_fuel_update_ts: MAGIC_FUEL_START_TS,
            cumulative_fuel_per_share_amount: 0,
            fuel_amount: 0,
        }
    }

    /// Whether the record's shares are in the vault's base.
    pub open spec fn base_valid(self, vault: Vault) -> bool {
        self.vault_shares_base == vault.shares_base
    }

    /// The record's shares, where they are in the vault's base.
    pub open spec fn shares_checked(self, vault: Vault) -> Result<u128, ErrorCode> {
        if self.base_valid(vault) {
            Ok(self.vault_shares)
        } else {
            Err(ErrorCode::InvalidVaultRebase)
        }
    }

    /// The record with `shares` shares, where its shares are in the vault's base and `shares`
    /// is a `u128`.
    pub open spec fn with_shares(self, shares: int, vault: Vault) -> Result<Self, ErrorCode> {
        if !self.base_valid(vault) {
            Err(ErrorCode::InvalidVaultRebase)
        } else {
            match to_u128(shares) {
                Err(e) => Err(e),
                Ok(vault_shares) => Ok(VaultDepositor { vault_shares, ..self }),
            }
        }
    }

    /// The value above which the depositor's gains are charged profit share.
    pub open spec fn high_water_mark(self) -> int {
        self.net_deposits + self.cumulative_profit_share_amount
    }

    /// What the depositor has gained beyond the high-water mark, when its shares are worth
    /// `total_amount`. `MathError` where a step does not fit in an `i64`.
    pub open spec fn profit(self, total_amount: u64) -> Result<i64, ErrorCode> {
        if to_i64(total_amount as int) is Err || to_i64(self.high_water_mark()) is Err {
            Err(ErrorCode::MathError)
        } else {
            to_i64(total_amount - self.high_water_mark())
        }
    }

    /// The record after profit share was worked out on shares worth `total_amount`.
    ///
    /// Only a gain is charged. The manager's and the protocol's part are each their rate's
    /// part of the gain; the whole gain goes behind the high-water mark, and the two parts are
    /// added to the fees paid.
    pub open spec fn profit_share_charged(
        self,
        total_amount: u64,
        vault: Vault,
        vault_protocol: Option<VaultProtocol>,
    ) -> Result<ProfitShareCharged, ErrorCode> {
        match self.profit(total_amount) {
            Err(e) => Err(e),
            Ok(profit) => if profit > 0 {
                let manager = profit_part(profit, vault.profit_share);
                let protocol = match vault_protocol {
                    None => 0,
                    Some(vp) => profit_part(profit, vp.protocol_profit_share),
                };
                if to_i64(self.cumulative_profit_share_amount + profit) is Err || to_u64(
                    self.profit_share_fee_paid + manager + protocol,
                ) is Err {
                    Err(ErrorCode::MathError)
                } else {
                    Ok(
                        ProfitShareCharged {
                            depositor: VaultDepositor {
                                cumulative_profit_share_amount: (self.cumulative_profit_share_amount
                                    + profit) as i64,
                                profit_share_fee_paid: (self.profit_share_fee_paid + manager
                                    + protocol) as u64,
                                ..self
                            },
                            manager: manager as u128,
                            protocol: protocol as u128,
                        },
                    )
                }
            } else {
                Ok(ProfitShareCharged { depositor: self, manager: 0, protocol: 0 })
            },
        }
    }

    /// The record after its fuel was forfeited at `now`.
    pub open spec fn fuel_reset(self, now: i64) -> Self {
        VaultDepositor {
            fuel_amount: 0,
            cumulative_fuel_per_share_amount: 0,
            last_fuel_update_ts: now as u32,
            ..self
        }
    }

    /// The record of the season ending for a depositor who had `self.fuel_amount`.
    pub open spec fn season_record(self, now: i64) -> FuelSeasonRecord {
        FuelSeasonRecord {
            ts: now,
            authority: self.authority,
            fuel_insurance: 0,
            fuel_deposits: 0,
            fuel_borrows: 0,
            fuel_positions: 0,
            fuel_taker: 0,
            fuel_maker: 0,
            fuel_total: self.fuel_amount,
        }
    }

    /// Fuel that the depositor's shares have earned while the vault's fuel per share rose to
    /// `per_share`.
    pub open spec fn fuel_earned(self, per_share: u128) -> Result<u128, ErrorCode> {
        proportion(
            (per_share - self.cumulative_fuel_per_share_amount) as u128,
            self.vault_shares,
            FUEL_SHARE_PRECISION,
        )
    }

    /// The record after its fuel was settled at `now` against a vault whose fuel per share is
    /// up to date, with the record of the season ending where it has.
    ///
    /// Nothing changes unless the clock, in seconds that wrap at 2^32, is past the record's
    /// last settlement. A record that `new` made and that was never settled only notes the
    /// vault's fuel per share. A record that noted more than the vault has now has lost its
    /// season: its fuel is forfeited. Any other record earns the rise of the fuel per share on
    /// each of its shares.
    pub open spec fn fuel_settled_against(self, now: i64, vault: Vault) -> Result<
        (VaultDepositor, Option<FuelSeasonRecord>),
        ErrorCode,
    > {
        let per_share = vault.cumulative_fuel_per_share;
        if (now as u32) > self.last_fuel_update_ts {
            if self.last_fuel_update_ts == MAGIC_FUEL_START_TS {
                Ok(
                    (
                        VaultDepositor {
                            cumulative_fuel_per_share_amount: per_share,
                            last_fuel_update_ts: now as u32,
                            ..self
                        },
                        None,
                    ),
                )
            } else if self.cumulative_fuel_per_share_amount > per_share {
                Ok(
                    (
                        VaultDepositor {
                            cumulative_fuel_per_share_amount: per_share,
                            ..self.fuel_reset(now)
                        },
                        Some(self.season_record(now)),
                    ),
                )
            } else if !self.base_valid(vault) {
                Err(ErrorCode::InvalidVaultRebase)
            } else {
                match self.fuel_earned(per_share) {
                    Err(e) => Err(e),
                    Ok(earned) => match to_u128(self.fuel_amount + earned) {
                        Err(e) => Err(e),
                        Ok(fuel_amount) => Ok(
                            (
                                VaultDepositor {
                                    fuel_amount,
                                    cumulative_fuel_per_share_amount: per_share,
                                    last_fuel_update_ts: now as u32,
                                    ..self
                                },
                                None,
                            ),
                        ),
                    },
                }
            }
        } else {
            Ok((self, None))
        }
    }

    /// The record and the vault after the vault's fuel per share was brought up to date at
    /// `now` and the record's fuel settled against it.
    pub open spec fn fuel_settled(
        self,
        now: i64,
        vault: Vault,
        user_stats: UserStats,
        fuel_overflow: Option<FuelOverflow>,
    ) -> Result<FuelSettled, ErrorCode> {
        match vault.fuel_per_share_updated(now, user_stats, fuel_overflow) {
            Err(e) => Err(e),
            Ok(updated) => match self.fuel_settled_against(now, updated) {
                Err(e) => Err(e),
                Ok((depositor, season)) => Ok(FuelSettled { depositor, vault: updated, season }),
            },
        }
    }

    pub fn new(vault: Pubkey, pubkey: Pubkey, authority: Pubkey, now: i64) -> (r: Self)
        ensures
            r == Self::fresh(vault, pubkey, authority, now),
    {
        VaultDepositor {
            vault,
            pubkey,
            authority,
            vault_shares: 0,
            vault_shares_base: 0,
            last_withdraw_request: WithdrawRequest::default(),
            last_valid_ts: now,
            net_deposits: 0,
            total_deposits: 0,
            total_withdraws: 0,
            cumulative_profit_share_amount: 0,
            profit_share_fee_paid: 0,
            last_fuel_update_ts: MAGIC_FUEL_START_TS,
            cumulative_fuel_per_share_amount: 0,
            fuel_amount: 0,
        }
    }

    pub fn get_authority(&self) -> (r: Pubkey)
        ensures
            r == self.authority,
    {
        self.authority
    }

    pub fn get_pubkey(&self) -> (r: Pubkey)
        ensures
            r == self.pubkey,
    {
        self.pubkey
    }

    pub fn get_vault_shares(&self) -> (r: u128)
        ensures
            r == self.vault_shares,
    {
        self.vault_shares
    }

    pub fn set_vault_shares(&mut self, shares: u128)
        ensures
            *final(self) == (VaultDepositor { vault_shares: shares, ..*old(self) }),
    {
        self.vault_shares = shares;
    }

    pub fn get_vault_shares_base(&self) -> (r: u32)
        ensures
            r == self.vault_shares_base,
    {
        self.vault_shares_base
    }

    pub fn set_vault_shares_base(&mut self, base: u32)
        ensures
            *final(self) == (VaultDepositor { vault_shares_base: base, ..*old(self) }),
    {
        self.vault_shares_base = base;
    }

    pub fn get_net_deposits(&self) -> (r: i64)
        ensures
            r == self.net_deposits,
    {
        self.net_deposits
    }

    pub fn set_net_deposits(&mut self, amount: i64)
        ensures
            *final(self) == (VaultDepositor { net_deposits: amount, ..*old(self) }),
    {
        self.net_deposits = amount;
    }

    pub fn get_cumulative_profit_share_amount(&self) -> (r: i64)
        ensures
            r == self.cumulative_profit_share_amount,
    {
        self.cumulative_profit_share_amount
    }

    pub fn set_cumulative_profit_share_amount(&mut self, amount: i64)
        ensures
            *final(self) == (VaultDepositor {
                cumulative_profit_share_amount: amount,
                ..*old(self)
            }),
    {
        self.cumulative_profit_share_amount = amount;
    }

    pub fn get_profit_share_fee_paid(&self) -> (r: u64)
        ensures
            r == self.profit_share_fee_paid,
    {
        self.profit_share_fee_paid
    }

    pub fn set_profit_share_fee_paid(&mut self, amount: u64)
        ensures
            *final(self) == (VaultDepositor { profit_share_fee_paid: amount, ..*old(self) }),
    {
        self.profit_share_fee_paid = amount;
    }

    /// Refuses a record whose shares are not in the vault's base.
    pub fn validate_base(&self, vault: &Vault) -> (r: Result<(), ErrorCode>)
        ensures
            self.base_valid(*vault) ==> r == Ok::<(), ErrorCode>(()),
            !self.base_valid(*vault) ==> r == Err::<(), ErrorCode>(ErrorCode::InvalidVaultRebase),
    {
        if self.vault_shares_base != vault.shares_base {
            return Err(ErrorCode::InvalidVaultRebase);
        }
        Ok(())
    }

    pub fn checked_vault_shares(&self, vault: &Vault) -> (r: Result<u128, ErrorCode>)
        ensures
            r == self.shares_checked(*vault),
    {
        self.validate_base(vault)?;
        Ok(self.vault_shares)
    }

    pub fn unchecked_vault_shares(&self) -> (r: u128)
        ensures
            r == self.vault_shares,
    {
        self.vault_shares
    }

    pub fn increase_vault_shares(&mut self, delta: u128, vault: &Vault) -> (r: Result<
        (),
        ErrorCode,
    >)
        ensures
            match r {
                Ok(_) => old(self).with_shares(old(self).vault_shares + delta, *vault) == Ok::<
                    Self,
                    ErrorCode,
                >(*final(self)),
                Err(e) => old(self).with_shares(old(self).vault_shares + delta, *vault) == Err::<
                    Self,
                    ErrorCode,
                >(e) && *final(self) == *old(self),
            },
    {
        self.validate_base(vault)?;
        let shares: u128 = safe_add_u128(self.vault_shares, delta)?;
        self.vault_shares = shares;
        Ok(())
    }

    pub fn decrease_vault_shares(&mut self, delta: u128, vault: &Vault) -> (r: Result<
        (),
        ErrorCode,
    >)
        ensures
            match r {
                Ok(_) => old(self).with_shares(old(self).vault_shares - delta, *vault) == Ok::<
                    Self,
                    ErrorCode,
                >(*final(self)),
                Err(e) => old(self).with_shares(old(self).vault_shares - delta, *vault) == Err::<
                    Self,
                    ErrorCode,
                >(e) && *final(self) == *old(self),
            },
    {
        self.validate_base(vault)?;
        let shares: u128 = safe_sub_u128(self.vault_shares, delta)?;
        self.vault_shares = shares;
        Ok(())
    }

    pub fn update_vault_shares(&mut self, new_shares: u128, vault: &Vault) -> (r: Result<
        (),
        ErrorCode,
    >)
        ensures
            match r {
                Ok(_) => old(self).with_shares(new_shares as int, *vault) == Ok::<Self, ErrorCode>(
                    *final(self),
                ),
                Err(e) => old(self).with_shares(new_shares as int, *vault) == Err::<
                    Self,
                    ErrorCode,
                >(e) && *final(self) == *old(self),
            },
    {
        self.validate_base(vault)?;
        self.vault_shares = new_shares;
        Ok(())
    }

    /// Works out the profit share on shares worth `total_amount`, notes it in the record, and
    /// returns the manager's and the protocol's part.
    pub fn calculate_profit_share_and_update(
        &mut self,
        total_amount: u64,
        vault: &Vault,
        vault_protocol: &Option<VaultProtocol>,
    ) -> (r: Result<(u128, u128), ErrorCode>)
        ensures
            match r {
                Ok(parts) => old(self).profit_share_charged(total_amount, *vault, *vault_protocol)
                    == Ok::<ProfitShareCharged, ErrorCode>(
                    ProfitShareCharged {
                        depositor: *final(self),
                        manager: parts.0,
                        protocol: parts.1,
                    },
                ),
                Err(e) => old(self).profit_share_charged(total_amount, *vault, *vault_protocol)
                    == Err::<ProfitShareCharged, ErrorCode>(e) && *final(self) == *old(self),
            },
            final(self).cumulative_profit_share_amount >= old(self).cumulative_profit_share_amount,
            r matches Ok(parts) ==> parts.0 + parts.1 <= u64::MAX,
    {
        let total: i64 = cast_u64_to_i64(total_amount)?;
        let mark: i64 = safe_add_i64(self.net_deposits, self.cumulative_profit_share_amount)?;
        let profit: i64 = safe_sub_i64(total, mark)?;
        if profit > 0 {
            let gain: u128 = profit as u128;
            proof {
                reveal(mul_div);
                assert(gain * vault.profit_share <= 0x7fff_ffff_ffff_ffff * 0xffff_ffff)
                    by (nonlinear_arith)
                    requires
                        0 <= gain <= 0x7fff_ffff_ffff_ffff,
                        0 <= vault.profit_share <= 0xffff_ffff,
                ;
            }
            let manager: u128 = gain * (vault.profit_share as u128) / PERCENTAGE_PRECISION;
            let protocol: u128 = match vault_protocol {
                None => 0,
                Some(vp) => {
                    proof {
                        assert(gain * vp.protocol_profit_share <= 0x7fff_ffff_ffff_ffff
                            * 0xffff_ffff) by (nonlinear_arith)
                            requires
                                0 <= gain <= 0x7fff_ffff_ffff_ffff,
                                0 <= vp.protocol_profit_share <= 0xffff_ffff,
                        ;
                    }
                    gain * (vp.protocol_profit_share as u128) / PERCENTAGE_PRECISION
                },
            };
            let cumulative: i64 = safe_add_i64(self.cumulative_profit_share_amount, profit)?;
            let charged: u64 = cast_u128_to_u64(manager + protocol)?;
            let paid: u64 = safe_add_u64(self.profit_share_fee_paid, charged)?;
            self.cumulative_profit_share_amount = cumulative;
            self.profit_share_fee_paid = paid;
            return Ok((manager, protocol));
        }
        Ok((0, 0))
    }

    /// Forfeits the record's fuel and returns the record of it.
    pub fn reset_fuel_amount(&mut self, now: i64) -> (r: FuelSeasonRecord)
        ensures
            *final(self) == old(self).fuel_reset(now),
            r == old(self).season_record(now),
    {
        let record = FuelSeasonRecord {
            ts: now,
            authority: self.authority,
            fuel_insurance: 0,
            fuel_deposits: 0,
            fuel_borrows: 0,
            fuel_positions: 0,
            fuel_taker: 0,
            fuel_maker: 0,
            fuel_total: self.fuel_amount,
        };
        self.fuel_amount = 0;
        self.cumulative_fuel_per_share_amount = 0;
        self.last_fuel_update_ts = clock_u32(now);
        record
    }

    /// Brings the vault's fuel per share up to date and settles the record's fuel against it.
    /// Returns the record's fuel, and the record of its season ending where it has.
    pub fn update_cumulative_fuel_amount(
        &mut self,
        now: i64,
        vault: &mut Vault,
        user_stats: &UserStats,
        fuel_overflow: &Option<FuelOverflow>,
    ) -> (r: Result<(u128, Option<FuelSeasonRecord>), ErrorCode>)
        ensures
            match r {
                Ok(out) => old(self).fuel_settled(now, *old(vault), *user_stats, *fuel_overflow)
                    == Ok::<FuelSettled, ErrorCode>(
                    FuelSettled { depositor: *final(self), vault: *final(vault), season: out.1 },
                ) && out.0 == final(self).fuel_amount,
                Err(e) => old(self).fuel_settled(now, *old(vault), *user_stats, *fuel_overflow)
                    == Err::<FuelSettled, ErrorCode>(e) && *final(self) == *old(self)
                    && *final(vault) == *old(vault),
            },
            final(self).cumulative_profit_share_amount == old(self).cumulative_profit_share_amount,
            final(self).vault_shares == old(self).vault_shares,
            final(vault).total_shares == old(vault).total_shares,
            final(vault).user_shares == old(vault).user_shares,
    {
        let mut updated: Vault = *vault;
        let per_share: u128 = updated.update_cumulative_fuel_per_share(
            now,
            user_stats,
            fuel_overflow,
        )?;
        let mut depositor: VaultDepositor = *self;
        let mut season: Option<FuelSeasonRecord> = None;
        let seconds: u32 = clock_u32(now);
        if seconds > depositor.last_fuel_update_ts {
            if depositor.last_fuel_update_ts != MAGIC_FUEL_START_TS {
                if depositor.cumulative_fuel_per_share_amount > per_share {
                    season = Some(depositor.reset_fuel_amount(now));
                } else {
                    let shares: u128 = depositor.checked_vault_shares(&updated)?;
                    let earned: u128 = get_proportion_u128(
                        per_share - depositor.cumulative_fuel_per_share_amount,
                        shares,
                        FUEL_SHARE_PRECISION,
                    )?;
                    depositor.fuel_amount = safe_add_u128(depositor.fuel_amount, earned)?;
                }
            }
            depositor.cumulative_fuel_per_share_amount = per_share;
            depositor.last_fuel_update_ts = seconds;
        }
        *self = depositor;
        *vault = updated;
        Ok((self.fuel_amount, season))
    }
}

} // verus!
