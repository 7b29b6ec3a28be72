//! The vault: the totals of the shares, the fee rates, and the fuel that the vault has earned.

use crate::constants::{FUEL_SHARE_PRECISION, ONE_YEAR, PERCENTAGE_PRECISION};
use crate::error::ErrorCode;
use crate::keys::{default_key, key_bytes, null_key_bytes};
use crate::math::{
    amount_for_shares, calculate_rebase_info, cast_u128_to_i64, depositor_shares_to_vault_amount,
    get_proportion_u128, lemma_mul_div_grows, lemma_mul_div_nonnegative, lemma_mul_div_part,
    mul_div, proportion, rebase_expo, safe_add_u128, safe_add_u32, safe_sub_u128, to_i64, to_u128,
    to_u32,
};
use crate::proofs::stages::{lemma_fee_applied, lemma_vault_rebased};
use crate::state::fuel::{get_total_fuel, total_fuel, FuelDistributionMode, FuelOverflow, UserStats};
use crate::state::vault_protocol::{protocol_shares, VaultProtocol};
use crate::state::withdraw_request::WithdrawRequest;
use anchor_lang::prelude::Pubkey;
use vstd::arithmetic::power::pow;
use vstd::prelude::*;

verus! {

/// A vault. `total_shares - user_shares`, less the protocol's shares where there is a protocol,
/// are the manager's.
#[derive(Clone, Copy, Debug, PartialEq, Eq)]
pub struct Vault {
    /// The vault's name, as bytes.
    pub name: [u8; 32],
    /// The vault's own address.
    pub pubkey: Pubkey,
    /// The manager, who may change the vault's terms.
    pub manager: Pubkey,
    /// The account that holds the vault's tokens between deposits and withdrawals.
    pub token_account: Pubkey,
    /// The vault's statistics account at the exchange.
    pub user_stats: Pubkey,
    /// The vault's trading account at the exchange.
    pub user: Pubkey,
    /// Who may trade for the vault.
    pub delegate: Pubkey,
    /// Who trades for the vault while a depositor is being paid out by force.
    pub liquidation_delegate: Pubkey,
    /// Sum of the depositors' shares.
    pub user_shares: u128,
    /// All shares: the depositors', the manager's and the protocol's.
    pub total_shares: u128,
    /// When the annual fees were last charged.
    pub last_fee_update_ts: i64,
    /// When the forced payout began.
    pub liquidation_start_ts: i64,
    /// Seconds that a withdraw request has to wait.
    pub redeem_period: i64,
    /// Sum of the values of the pending withdraw requests.
    pub total_withdraw_requested: u64,
    /// Most that the vault may be worth after a deposit; 0 for no limit.
    pub max_tokens: u64,
    /// The manager's annual fee on the depositors' value, in millionths.
    pub management_fee: i64,
    /// When the vault was made.
    pub init_ts: i64,
    /// Lifetime deposits less withdrawals.
    pub net_deposits: i64,
    /// The manager's lifetime deposits less withdrawals.
    pub manager_net_deposits: i64,
    /// Lifetime deposits.
    pub total_deposits: u64,
    /// Lifetime withdrawals.
    pub total_withdraws: u64,
    /// The manager's lifetime deposits.
    pub manager_total_deposits: u64,
    /// The manager's lifetime withdrawals.
    pub manager_total_withdraws: u64,
    /// Lifetime annual fee charged by the manager.
    pub manager_total_fee: i64,
    /// Lifetime profit share charged by the manager.
    pub manager_total_profit_share: u64,
    /// Least amount of a deposit; 0 for no limit.
    pub min_deposit_amount: u64,
    /// The manager's own pending withdrawal.
    pub last_manager_withdraw_request: WithdrawRequest,
    /// Number of decimal places by which the shares have been cut back so far.
    pub shares_base: u32,
    /// The manager's part of the depositors' profit, in millionths.
    pub profit_share: u32,
    /// Return below which no profit share is due, in millionths.
    pub hurdle_rate: u32,
    /// The exchange's market of the deposit asset.
    pub spot_market_index: u16,
    pub bump: u8,
    /// Whether only the manager can open depositor records.
    pub permissioned: bool,
    /// Whether the vault has a protocol.
    pub vault_protocol: bool,
    /// To whom the fuel is handed.
    pub fuel_distribution_mode: FuelDistributionMode,
    /// When the fuel per share was last brought up to date, in seconds that wrap at 2^32.
    pub last_cumulative_fuel_per_share_ts: u32,
    /// Fuel earned per share since the season began, times `FUEL_SHARE_PRECISION`.
    pub cumulative_fuel_per_share: u128,
    /// The exchange's fuel total as last seen.
    pub cumulative_fuel: u128,
}

/// Annual fees charged in one call: what they took of the depositors' value, and the shares
/// made for them.
#[derive(Clone, Copy, Debug, PartialEq, Eq, Structural)]
pub struct VaultFee {
    pub management_fee_payment: i64,
    pub management_fee_shares: i64,
    pub protocol_fee_payment: i64,
    pub protocol_fee_shares: i64,
}

/// A vault and its protocol after a step, with the divisor by which shares were cut back.
pub struct Rebased {
    pub vault: Vault,
    pub protocol: Option<VaultProtocol>,
    pub divisor: Option<u128>,
}

/// A vault and its protocol after the annual fees, with the fees.
pub struct FeeApplied {
    pub vault: Vault,
    pub protocol: Option<VaultProtocol>,
    pub fee: VaultFee,
}

/// The smaller of two integers.
pub open spec fn min_int(a: int, b: int) -> int {
    if a <= b {
        a
    } else {
        b
    }
}

/// `a + b`, or the largest `u64` when the sum is beyond it.
pub open spec fn saturating_u64(a: u64, b: u64) -> u64 {
    if a + b > u64::MAX {
        u64::MAX
    } else {
        (a + b) as u64
    }
}

/// `a + b`, or the nearest `i64` when the sum is out of range.
pub open spec fn saturating_i64(a: i64, b: i64) -> i64 {
    if a + b > i64::MAX {
        i64::MAX
    } else if a + b < i64::MIN {
        i64::MIN
    } else {
        (a + b) as i64
    }
}

/// The protocol with its shares in a base `divisor` times coarser.
pub open spec fn protocol_rebased(vault_protocol: Option<VaultProtocol>, divisor: u128) -> Option<
    VaultProtocol,
> {
    match vault_protocol {
        None => None,
        Some(vp) => Some(
            VaultProtocol {
                protocol_profit_and_fee_shares: vp.protocol_profit_and_fee_shares / divisor,
                last_protocol_withdraw_request: WithdrawRequest {
                    shares: vp.last_protocol_withdraw_request.shares / divisor,
                    ..vp.last_protocol_withdraw_request
                },
                ..vp
            },
        ),
    }
}

/// The protocol after it has been given `shares` more shares for `payment` of annual fee.
pub open spec fn protocol_paid(vault_protocol: Option<VaultProtocol>, shares: u128, payment: u64) -> Result<
    Option<VaultProtocol>,
    ErrorCode,
> {
    match vault_protocol {
        None => Ok(None),
        Some(vp) => match to_u128(vp.protocol_profit_and_fee_shares + shares) {
            Err(e) => Err(e),
            Ok(held) => Ok(
                Some(
                    VaultProtocol {
                        protocol_profit_and_fee_shares: held,
                        protocol_total_fee: saturating_u64(vp.protocol_total_fee, payment),
                        ..vp
                    },
                ),
            ),
        },
    }
}

/// The protocol's annual rate; none where the vault has no protocol.
pub open spec fn protocol_rate(vault_protocol: Option<VaultProtocol>) -> int {
    match vault_protocol {
        None => 0,
        Some(vp) => vp.protocol_fee as int,
    }
}

/// The seconds of `now` as the vault keeps them for fuel: the low 32 bits.
pub fn clock_u32(now: i64) -> (r: u32)
    ensures
        r == now as u32,
{
    #[verifier::truncate]
    (now as u32)
}

fn saturating_add_i64(a: i64, b: i64) -> (r: i64)
    ensures
        r == saturating_i64(a, b),
{
    match a.checked_add(b) {
        Some(v) => v,
        None => if b > 0 {
            i64::MAX
        } else {
            i64::MIN
        },
    }
}

/// What an annual `rate` takes of `depositor_equity` in `period` seconds, but no more than `cap`.
fn capped_fee(depositor_equity: u64, rate: u64, period: u64, cap: u64) -> (r: u64)
    ensures
        r == min_int(Vault::fee_due(depositor_equity, rate as int, period as int), cap as int),
{
    let ghost product: int = depositor_equity as int * rate as int;
    assert(0 <= product <= 0xffff_ffff_ffff_ffff * 0xffff_ffff_ffff_ffff) by (nonlinear_arith)
        requires
            product == depositor_equity as int * rate as int,
            0 <= depositor_equity <= 0xffff_ffff_ffff_ffff,
            0 <= rate <= 0xffff_ffff_ffff_ffff,
    ;
    let yearly: u128 = (depositor_equity as u128 * rate as u128) / PERCENTAGE_PRECISION;
    proof {
        assert(yearly == mul_div(
            depositor_equity as int,
            rate as int,
            PERCENTAGE_PRECISION as int,
        )) by {
            reveal(mul_div);
        }
        lemma_mul_div_nonnegative(yearly as int, period as int, ONE_YEAR as int);
    }
    match get_proportion_u128(yearly, period as u128, ONE_YEAR as u128) {
        Ok(due) => if due < cap as u128 {
            due as u64
        } else {
            cap
        },
        Err(_) => cap,
    }
}

impl Default for Vault {
    fn default() -> (r: Self)
        ensures
            r.user_shares == 0,
            r.total_shares == 0,
            r.shares_base == 0,
            r.last_fee_update_ts == 0,
            r.liquidation_start_ts == 0,
            r.redeem_period == 0,
            r.total_withdraw_requested == 0,
            r.max_tokens == 0,
            r.management_fee == 0,
            r.profit_share == 0,
            r.min_deposit_amount == 0,
            r.net_deposits == 0,
            r.total_deposits == 0,
            r.total_withdraws == 0,
            r.manager_total_fee == 0,
            r.manager_total_profit_share == 0,
            r.last_manager_withdraw_request == WithdrawRequest::empty(0),
            r.fuel_distribution_mode == FuelDistributionMode::UsersOnly,
            r.last_cumulative_fuel_per_share_ts == 0,
            r.cumulative_fuel_per_share == 0,
            r.cumulative_fuel == 0,
            r.init_ts == 0,
            r.manager_net_deposits == 0,
            r.manager_total_deposits == 0,
            r.manager_total_withdraws == 0,
            r.hurdle_rate == 0,
            r.spot_market_index == 0,
            r.bump == 0,
            !r.permissioned,
            !r.vault_protocol,
            forall|i: int| 0 <= i < 32 ==> r.name[i] == 0,
            key_bytes(r.pubkey) == null_key_bytes(),
            key_bytes(r.manager) == null_key_bytes(),
            key_bytes(r.token_account) == null_key_bytes(),
            key_bytes(r.user_stats) == null_key_bytes(),
            key_bytes(r.user) == null_key_bytes(),
            key_bytes(r.delegate) == null_key_bytes(),
            key_bytes(r.liquidation_delegate) == null_key_bytes(),
    {
        Vault {
            name: [0u8; 32],
            pubkey: default_key(),
            manager: default_key(),
            token_account: default_key(),
            user_stats: default_key(),
            user: default_key(),
            delegate: default_key(),
            liquidation_delegate: default_key(),
            user_shares: 0,
            total_shares: 0,
            last_fee_update_ts: 0,
            liquidation_start_ts: 0,
            redeem_period: 0,
            total_withdraw_requested: 0,
            max_tokens: 0,
            management_fee: 0,
            init_ts: 0,
            net_deposits: 0,
            manager_net_deposits: 0,
            total_deposits: 0,
            total_withdraws: 0,
            manager_total_deposits: 0,
            manager_total_withdraws: 0,
            manager_total_fee: 0,
            manager_total_profit_share: 0,
            min_deposit_amount: 0,
            last_manager_withdraw_request: WithdrawRequest::default(),
            shares_base: 0,
            profit_share: 0,
            hurdle_rate: 0,
            spot_market_index: 0,
            bump: 0,
            permissioned: false,
            vault_protocol: false,
            fuel_distribution_mode: FuelDistributionMode::UsersOnly,
            last_cumulative_fuel_per_share_ts: 0,
            cumulative_fuel_per_share: 0,
            cumulative_fuel: 0,
        }
    }
}

impl Vault {
    /// The depositors and the protocol together hold no more than all the shares, so that the
    /// manager's balance is not negative.
    pub open spec fn shares_consistent(self, vault_protocol: Option<VaultProtocol>) -> bool {
        self.user_shares + protocol_shares(vault_protocol) <= self.total_shares
    }

    /// The manager's shares: what the depositors and the protocol do not hold.
    pub open spec fn manager_shares(self, vault_protocol: Option<VaultProtocol>) -> int {
        self.total_shares - self.user_shares - protocol_shares(vault_protocol)
    }

    /// What the depositors' shares are worth together.
    pub open spec fn depositor_equity(self, vault_equity: u64) -> Result<u64, ErrorCode> {
        amount_for_shares(self.user_shares, self.total_shares, vault_equity)
    }

    /// The manager's annual rate: `management_fee` where it is positive, else none.
    pub open spec fn management_rate(self) -> int {
        if self.management_fee > 0 {
            self.management_fee as int
        } else {
            0
        }
    }

    /// Seconds since the annual fees were last charged; none where the clock has not moved on.
    pub open spec fn fee_period(self, now: i64) -> int {
        if now > self.last_fee_update_ts {
            now - self.last_fee_update_ts
        } else {
            0
        }
    }

    /// The shares among which the fuel is divided.
    pub open spec fn fuel_shares(self) -> u128 {
        match self.fuel_distribution_mode {
            FuelDistributionMode::UsersOnly => self.user_shares,
            FuelDistributionMode::UsersAndManager => self.total_shares,
        }
    }

    /// The vault and its protocol after the rebase that `vault_equity` calls for.
    ///
    /// A vault that is worth something and has a hundred shares or more per unit of value has
    /// all its share counts divided by the power of ten of `rebase_expo`, and its base raised by
    /// that exponent. A vault that is worth something and has no shares yet is given one share
    /// per unit of value, all of them the manager's.
    pub open spec fn rebased(
        self,
        vault_protocol: Option<VaultProtocol>,
        vault_equity: u64,
    ) -> Result<Rebased, ErrorCode> {
        if vault_equity != 0 && vault_equity < self.total_shares && rebase_expo(
            self.total_shares,
            vault_equity,
        ) != 0 {
            let expo = rebase_expo(self.total_shares, vault_equity);
            let divisor = pow(10, expo) as u128;
            match to_u32(self.shares_base + expo) {
                Err(e) => Err(e),
                Ok(base) => Ok(
                    Rebased {
                        vault: Vault {
                            total_shares: self.total_shares / divisor,
                            user_shares: self.user_shares / divisor,
                            shares_base: base,
                            last_manager_withdraw_request: WithdrawRequest {
                                shares: self.last_manager_withdraw_request.shares / divisor,
                                ..self.last_manager_withdraw_request
                            },
                            ..self
                        },
                        protocol: protocol_rebased(vault_protocol, divisor),
                        divisor: Some(divisor),
                    },
                ),
            }
        } else if vault_equity != 0 && self.total_shares == 0 {
            Ok(
                Rebased {
                    vault: Vault { total_shares: vault_equity as u128, ..self },
                    protocol: vault_protocol,
                    divisor: None,
                },
            )
        } else {
            Ok(Rebased { vault: self, protocol: vault_protocol, divisor: None })
        }
    }

    /// What an annual `rate` in millionths takes of `depositor_equity` in `period` seconds:
    /// the yearly charge first, then its part for the period, each rounded down.
    pub open spec fn fee_due(depositor_equity: u64, rate: int, period: int) -> int {
        mul_div(
            mul_div(depositor_equity as int, rate, PERCENTAGE_PRECISION as int),
            period,
            ONE_YEAR as int,
        )
    }

    /// The manager's annual fee that is due at `now`. It leaves the depositors at least one
    /// unit of value.
    pub open spec fn management_fee_due(self, depositor_equity: u64, now: i64) -> int {
        min_int(
            Self::fee_due(depositor_equity, self.management_rate(), self.fee_period(now)),
            depositor_equity - 1,
        )
    }

    /// The protocol's annual fee that is due at `now`. Together with the manager's it leaves the
    /// depositors at least one unit of value.
    pub open spec fn protocol_fee_due(
        self,
        vault_protocol: Option<VaultProtocol>,
        depositor_equity: u64,
        now: i64,
    ) -> int {
        match vault_protocol {
            None => 0,
            Some(vp) => min_int(
                Self::fee_due(depositor_equity, vp.protocol_fee as int, self.fee_period(now)),
                depositor_equity - 1 - self.management_fee_due(depositor_equity, now),
            ),
        }
    }

    /// All shares once new ones have been made for a fee of `payment` out of
    /// `depositor_equity`: the shares grow by the factor by which the fee shrinks the
    /// depositors' value, the factor taken in millionths and rounded down.
    pub open spec fn diluted_shares(total_shares: u128, depositor_equity: u64, payment: int) -> Result<
        u128,
        ErrorCode,
    > {
        proportion(
            total_shares,
            mul_div(
                depositor_equity as int,
                PERCENTAGE_PRECISION as int,
                depositor_equity - payment,
            ) as u128,
            PERCENTAGE_PRECISION,
        )
    }

    /// The vault and its protocol after the annual fees that are due at `now`.
    ///
    /// Nothing is due while the depositors' shares are worth nothing or no rate is set; the
    /// fees then count as charged at `now`. Otherwise shares are made for the manager's and the
    /// protocol's fee together and divided between the two in proportion to their fees, the
    /// protocol's part rounded down. Where that makes no share, the time of the last charge
    /// stays, so that the period goes on growing. A rebase follows, for the case that the new
    /// shares call for one.
    pub open spec fn fee_applied(
        self,
        vault_protocol: Option<VaultProtocol>,
        vault_equity: u64,
        now: i64,
    ) -> Result<FeeApplied, ErrorCode> {
        match self.depositor_equity(vault_equity) {
            Err(e) => Err(e),
            Ok(depositor_equity) => if depositor_equity == 0 || (self.management_rate() == 0
                && protocol_rate(vault_protocol) == 0) {
                Ok(
                    FeeApplied {
                        vault: Vault { last_fee_update_ts: now, ..self },
                        protocol: vault_protocol,
                        fee: VaultFee {
                            management_fee_payment: 0,
                            management_fee_shares: 0,
                            protocol_fee_payment: 0,
                            protocol_fee_shares: 0,
                        },
                    },
                )
            } else {
                let management = self.management_fee_due(depositor_equity, now);
                let protocol = self.protocol_fee_due(vault_protocol, depositor_equity, now);
                match Self::diluted_shares(
                    self.total_shares,
                    depositor_equity,
                    management + protocol,
                ) {
                    Err(e) => Err(e),
                    Ok(total_shares) => {
                        let made = total_shares - self.total_shares;
                        let protocol_part = if management + protocol > 0 {
                            mul_div(made, protocol, management + protocol)
                        } else {
                            0
                        };
                        let management_part = made - protocol_part;
                        if to_i64(management) is Err || to_i64(protocol) is Err || to_i64(
                            management_part,
                        ) is Err || to_i64(protocol_part) is Err {
                            Err(ErrorCode::MathError)
                        } else {
                            match protocol_paid(
                                vault_protocol,
                                protocol_part as u128,
                                protocol as u64,
                            ) {
                                Err(e) => Err(e),
                                Ok(paid) => {
                                    let charged = Vault {
                                        total_shares,
                                        manager_total_fee: saturating_i64(
                                            self.manager_total_fee,
                                            management as i64,
                                        ),
                                        last_fee_update_ts: if management + protocol == 0 || made
                                            == 0 {
                                            self.last_fee_update_ts
                                        } else {
                                            now
                                        },
                                        ..self
                                    };
                                    match charged.rebased(paid, vault_equity) {
                                        Err(e) => Err(e),
                                        Ok(rebased) => Ok(
                                            FeeApplied {
                                                vault: rebased.vault,
                                                protocol: rebased.protocol,
                                                fee: VaultFee {
                                                    management_fee_payment: management as i64,
                                                    management_fee_shares: management_part as i64,
                                                    protocol_fee_payment: protocol as i64,
                                                    protocol_fee_shares: protocol_part as i64,
                                                },
                                            },
                                        ),
                                    }
                                },
                            }
                        }
                    },
                }
            },
        }
    }

    /// The vault after its fuel per share has been brought up to date at `now`.
    ///
    /// Nothing changes unless the clock, in seconds that wrap at 2^32, is past the last
    /// update. Fuel that the exchange has added since then is spread over `fuel_shares`,
    /// rounded down; while there are no such shares it is dropped. A total below the one last
    /// seen means that the exchange has begun a new season: the fuel per share starts again
    /// at zero.
    pub open spec fn fuel_per_share_updated(
        self,
        now: i64,
        user_stats: UserStats,
        fuel_overflow: Option<FuelOverflow>,
    ) -> Result<Vault, ErrorCode> {
        if (now as u32) > self.last_cumulative_fuel_per_share_ts {
            match total_fuel(user_stats, fuel_overflow) {
                Err(e) => Err(e),
                Ok(total) => if total > self.cumulative_fuel && self.fuel_shares() > 0 {
                    match proportion(
                        (total - self.cumulative_fuel) as u128,
                        FUEL_SHARE_PRECISION,
                        self.fuel_shares(),
                    ) {
                        Err(e) => Err(e),
                        Ok(added) => match to_u128(self.cumulative_fuel_per_share + added) {
                            Err(e) => Err(e),
                            Ok(per_share) => Ok(
                                Vault {
                                    cumulative_fuel_per_share: per_share,
                                    cumulative_fuel: total,
                                    last_cumulative_fuel_per_share_ts: now as u32,
                                    ..self
                                },
                            ),
                        },
                    }
                } else if total < self.cumulative_fuel {
                    Ok(
                        Vault {
                            cumulative_fuel_per_share: 0,
                            cumulative_fuel: total,
                            last_cumulative_fuel_per_share_ts: now as u32,
                            ..self
                        },
                    )
                } else {
                    Ok(
                        Vault {
                            cumulative_fuel: total,
                            last_cumulative_fuel_per_share_ts: now as u32,
                            ..self
                        },
                    )
                },
            }
        } else {
            Ok(self)
        }
    }

    pub fn get_manager_shares(&self, vault_protocol: &Option<VaultProtocol>) -> (r: Result<
        u128,
        ErrorCode,
    >)
        ensures
            r == to_u128(self.manager_shares(*vault_protocol)),
    {
        let rest: u128 = safe_sub_u128(self.total_shares, self.user_shares)?;
        match vault_protocol {
            None => Ok(rest),
            Some(vp) => safe_sub_u128(rest, vp.protocol_profit_and_fee_shares),
        }
    }

    pub fn get_protocol_shares(&self, vault_protocol: &Option<VaultProtocol>) -> (r: u128)
        ensures
            r == protocol_shares(*vault_protocol),
    {
        match vault_protocol {
            None => 0,
            Some(vp) => vp.protocol_profit_and_fee_shares,
        }
    }

    pub fn get_fuel_distribution_mode(&self) -> (r: FuelDistributionMode)
        ensures
            r == self.fuel_distribution_mode,
    {
        self.fuel_distribution_mode
    }

    /// Ends a forced payout: nobody is liquidation delegate any more.
    pub fn reset_liquidation_delegate(&mut self)
        ensures
            key_bytes(final(self).liquidation_delegate) == null_key_bytes(),
            *final(self) == (Vault {
                liquidation_delegate: final(self).liquidation_delegate,
                liquidation_start_ts: 0,
                ..*old(self)
            }),
    {
        self.liquidation_delegate = default_key();
        self.liquidation_start_ts = 0;
    }

    /// Cuts the shares back where the vault has too many of them for its value, and gives a vault
    /// without shares its first ones. Returns the divisor, if the shares were cut back.
    pub fn apply_rebase(
        &mut self,
        vault_protocol: &mut Option<VaultProtocol>,
        vault_equity: u64,
    ) -> (r: Result<Option<u128>, ErrorCode>)
        ensures
            match r {
                Ok(divisor) => old(self).rebased(*old(vault_protocol), vault_equity) == Ok::<
                    Rebased,
                    ErrorCode,
                >(Rebased { vault: *final(self), protocol: *final(vault_protocol), divisor }),
                Err(e) => old(self).rebased(*old(vault_protocol), vault_equity) == Err::<
                    Rebased,
                    ErrorCode,
                >(e) && *final(self) == *old(self)
                    && *final(vault_protocol) == *old(vault_protocol),
            },
            old(self).shares_consistent(*old(vault_protocol)) ==> final(self).shares_consistent(
                *final(vault_protocol),
            ),
            final(self).shares_base >= old(self).shares_base,
    {
        proof {
            lemma_vault_rebased(*self, *vault_protocol, vault_equity);
        }
        if vault_equity != 0 && (vault_equity as u128) < self.total_shares {
            let (expo, divisor): (u32, u128) = calculate_rebase_info(self.total_shares, vault_equity)?;
            if expo != 0 {
                let base: u32 = safe_add_u32(self.shares_base, expo)?;
                self.total_shares = self.total_shares / divisor;
                self.user_shares = self.user_shares / divisor;
                self.shares_base = base;
                self.last_manager_withdraw_request.shares =
                    self.last_manager_withdraw_request.shares / divisor;
                match vault_protocol {
                    None => {},
                    Some(vp) => {
                        vp.protocol_profit_and_fee_shares = vp.protocol_profit_and_fee_shares
                            / divisor;
                        vp.last_protocol_withdraw_request.shares =
                            vp.last_protocol_withdraw_request.shares / divisor;
                    },
                }
                return Ok(Some(divisor));
            }
        }
        if vault_equity != 0 && self.total_shares == 0 {
            self.total_shares = vault_equity as u128;
        }
        Ok(None)
    }

    /// The manager's and the protocol's annual fee that are due at `now`.
    fn fees_due(
        &self,
        vault_protocol: &Option<VaultProtocol>,
        depositor_equity: u64,
        now: i64,
    ) -> (r: (u64, u64))
        requires
            depositor_equity > 0,
        ensures
            r.0 == self.management_fee_due(depositor_equity, now),
            r.1 == self.protocol_fee_due(*vault_protocol, depositor_equity, now),
            r.0 + r.1 < depositor_equity,
    {
        let management_rate: u64 = if self.management_fee > 0 {
            self.management_fee as u64
        } else {
            0
        };
        let period: u64 = if now > self.last_fee_update_ts {
            (now as i128 - self.last_fee_update_ts as i128) as u64
        } else {
            0
        };
        let management: u64 = capped_fee(
            depositor_equity,
            management_rate,
            period,
            depositor_equity - 1,
        );
        let protocol: u64 = match vault_protocol {
            None => 0,
            Some(vp) => capped_fee(
                depositor_equity,
                vp.protocol_fee,
                period,
                depositor_equity - 1 - management,
            ),
        };
        (management, protocol)
    }

    /// All shares once new ones have been made for a fee of `payment`.
    fn dilute(total_shares: u128, depositor_equity: u64, payment: u64) -> (r: Result<
        u128,
        ErrorCode,
    >)
        requires
            payment < depositor_equity,
        ensures
            r == Self::diluted_shares(total_shares, depositor_equity, payment as int),
            r matches Ok(diluted) ==> diluted >= total_shares,
    {
        let rest: u64 = depositor_equity - payment;
        proof {
            reveal(mul_div);
            let d: int = depositor_equity as int;
            let q: int = rest as int;
            assert(1_000_000 <= (d * 1_000_000) / q <= d * 1_000_000) by (nonlinear_arith)
                requires
                    1 <= q <= d,
            ;
        }
        let factor: u128 = (depositor_equity as u128 * PERCENTAGE_PRECISION) / (rest as u128);
        proof {
            lemma_mul_div_grows(
                total_shares as int,
                factor as int,
                PERCENTAGE_PRECISION as int,
            );
        }
        get_proportion_u128(total_shares, factor, PERCENTAGE_PRECISION)
    }

    /// The protocol's part of `made` new shares.
    fn protocol_part(made: u128, protocol: u64, payment: u64) -> (r: u128)
        requires
            protocol <= payment,
        ensures
            r <= made,
            payment > 0 ==> r == mul_div(made as int, protocol as int, payment as int),
            payment == 0 ==> r == 0,
    {
        if payment > 0 {
            proof {
                lemma_mul_div_part(made as int, protocol as int, payment as int);
            }
            match get_proportion_u128(made, protocol as u128, payment as u128) {
                Ok(part) => part,
                Err(_) => 0,
            }
        } else {
            0
        }
    }

    /// Gives the protocol `shares` more shares for `payment` of annual fee.
    fn pay_protocol(vault_protocol: &mut Option<VaultProtocol>, shares: u128, payment: u64) -> (r:
        Result<(), ErrorCode>)
        ensures
            match r {
                Ok(_) => protocol_paid(*old(vault_protocol), shares, payment) == Ok::<
                    Option<VaultProtocol>,
                    ErrorCode,
                >(*final(vault_protocol)),
                Err(e) => protocol_paid(*old(vault_protocol), shares, payment) == Err::<
                    Option<VaultProtocol>,
                    ErrorCode,
                >(e) && *final(vault_protocol) == *old(vault_protocol),
            },
    {
        match vault_protocol {
            None => Ok(()),
            Some(vp) => {
                let held: u128 = safe_add_u128(vp.protocol_profit_and_fee_shares, shares)?;
                vp.protocol_profit_and_fee_shares = held;
                vp.protocol_total_fee = vp.protocol_total_fee.saturating_add(payment);
                Ok(())
            },
        }
    }

    /// Charges the annual fees that are due at `now`, as new shares for the manager and the
    /// protocol, and returns what was charged.
    pub fn apply_fee(
        &mut self,
        vault_protocol: &mut Option<VaultProtocol>,
        vault_equity: u64,
        now: i64,
    ) -> (r: Result<VaultFee, ErrorCode>)
        ensures
            match r {
                Ok(fee) => old(self).fee_applied(*old(vault_protocol), vault_equity, now) == Ok::<
                    FeeApplied,
                    ErrorCode,
                >(FeeApplied { vault: *final(self), protocol: *final(vault_protocol), fee }),
                Err(e) => old(self).fee_applied(*old(vault_protocol), vault_equity, now) == Err::<
                    FeeApplied,
                    ErrorCode,
                >(e) && *final(self) == *old(self)
                    && *final(vault_protocol) == *old(vault_protocol),
            },
            old(self).shares_consistent(*old(vault_protocol)) ==> final(self).shares_consistent(
                *final(vault_protocol),
            ),
            final(self).shares_base >= old(self).shares_base,
    {
        proof {
            lemma_fee_applied(*self, *vault_protocol, vault_equity, now);
        }
        let depositor_equity: u64 = depositor_shares_to_vault_amount(
            self.user_shares,
            self.total_shares,
            vault_equity,
        )?;
        let no_protocol_rate: bool = match vault_protocol {
            None => true,
            Some(vp) => vp.protocol_fee == 0,
        };
        if depositor_equity == 0 || (self.management_fee <= 0 && no_protocol_rate) {
            self.last_fee_update_ts = now;
            return Ok(
                VaultFee {
                    management_fee_payment: 0,
                    management_fee_shares: 0,
                    protocol_fee_payment: 0,
                    protocol_fee_shares: 0,
                },
            );
        }
        let (management, protocol): (u64, u64) = self.fees_due(
            vault_protocol,
            depositor_equity,
            now,
        );
        let payment: u64 = management + protocol;
        let total_shares: u128 = Self::dilute(self.total_shares, depositor_equity, payment)?;
        let made: u128 = total_shares - self.total_shares;
        let protocol_part: u128 = Self::protocol_part(made, protocol, payment);
        let management_part: u128 = made - protocol_part;
        let fee = VaultFee {
            management_fee_payment: cast_u128_to_i64(management as u128)?,
            management_fee_shares: cast_u128_to_i64(management_part)?,
            protocol_fee_payment: cast_u128_to_i64(protocol as u128)?,
            protocol_fee_shares: cast_u128_to_i64(protocol_part)?,
        };
        let mut paid: Option<VaultProtocol> = *vault_protocol;
        Self::pay_protocol(&mut paid, protocol_part, protocol)?;
        let mut charged: Vault = *self;
        charged.total_shares = total_shares;
        charged.manager_total_fee = saturating_add_i64(
            self.manager_total_fee,
            fee.management_fee_payment,
        );
        if payment != 0 && made != 0 {
            charged.last_fee_update_ts = now;
        }
        charged.apply_rebase(&mut paid, vault_equity)?;
        *self = charged;
        *vault_protocol = paid;
        Ok(fee)
    }

    /// Brings the fuel per share up to date at `now` and returns it.
    pub fn update_cumulative_fuel_per_share(
        &mut self,
        now: i64,
        user_stats: &UserStats,
        fuel_overflow: &Option<FuelOverflow>,
    ) -> (r: Result<u128, ErrorCode>)
        ensures
            match r {
                Ok(per_share) => old(self).fuel_per_share_updated(
                    now,
                    *user_stats,
                    *fuel_overflow,
                ) == Ok::<Vault, ErrorCode>(*final(self))
                    && per_share == final(self).cumulative_fuel_per_share,
                Err(e) => old(self).fuel_per_share_updated(now, *user_stats, *fuel_overflow)
                    == Err::<Vault, ErrorCode>(e) && *final(self) == *old(self),
            },
    {
        let seconds: u32 = clock_u32(now);
        if seconds > self.last_cumulative_fuel_per_share_ts {
            let total: u128 = get_total_fuel(user_stats, fuel_overflow)?;
            let shares: u128 = match self.fuel_distribution_mode {
                FuelDistributionMode::UsersOnly => self.user_shares,
                FuelDistributionMode::UsersAndManager => self.total_shares,
            };
            if total > self.cumulative_fuel && shares > 0 {
                let added: u128 = get_proportion_u128(
                    total - self.cumulative_fuel,
                    FUEL_SHARE_PRECISION,
                    shares,
                )?;
                let per_share: u128 = safe_add_u128(self.cumulative_fuel_per_share, added)?;
                self.cumulative_fuel_per_share = per_share;
            } else if total < self.cumulative_fuel {
                self.cumulative_fuel_per_share = 0;
            }
            self.cumulative_fuel = total;
            self.last_cumulative_fuel_per_share_ts = seconds;
        }
        Ok(self.cumulative_fuel_per_share)
    }
}

} // verus!
