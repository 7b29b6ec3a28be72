//! The records that an operation hands back for the caller to publish.

use anchor_lang::prelude::Pubkey;
use vstd::prelude::*;

verus! {

/// What a depositor record was called to do.
#[derive(Clone, Copy, Debug, PartialEq, Eq, Structural)]
pub enum VaultDepositorAction {
    Deposit,
    WithdrawRequest,
    CancelWithdrawRequest,
    Withdraw,
    FeePayment,
    TokenizeShares,
    RedeemTokens,
}

/// Record of an operation on a vault without a protocol.
#[derive(Clone, Copy, Debug, PartialEq, Eq)]
pub struct VaultDepositorRecord {
    pub ts: i64,
    pub vault: Pubkey,
    pub depositor_authority: Pubkey,
    pub action: VaultDepositorAction,
    pub amount: u64,
    pub spot_market_index: u16,
    pub vault_shares_before: u128,
    pub vault_shares_after: u128,
    pub vault_equity_before: u64,
    pub user_vault_shares_before: u128,
    pub total_vault_shares_before: u128,
    pub user_vault_shares_after: u128,
    pub total_vault_shares_after: u128,
    pub profit_share: u64,
    pub management_fee: i64,
    pub management_fee_shares: i64,
    pub deposit_oracle_price: i64,
}

/// Record of an operation on a vault with a protocol.
#[derive(Clone, Copy, Debug, PartialEq, Eq)]
pub struct VaultDepositorV1Record {
    pub ts: i64,
    pub vault: Pubkey,
    pub depositor_authority: Pubkey,
    pub action: VaultDepositorAction,
    pub amount: u64,
    pub spot_market_index: u16,
    pub vault_shares_before: u128,
    pub vault_shares_after: u128,
    pub vault_equity_before: u64,
    pub user_vault_shares_before: u128,
    pub total_vault_shares_before: u128,
    pub user_vault_shares_after: u128,
    pub total_vault_shares_after: u128,
    pub protocol_shares_before: u128,
    pub protocol_shares_after: u128,
    pub protocol_profit_share: u64,
    pub protocol_fee: i64,
    pub protocol_fee_shares: i64,
    pub manager_profit_share: u64,
    pub management_fee: i64,
    pub management_fee_shares: i64,
    pub deposit_oracle_price: i64,
}

/// The record of one operation, in the form that the vault calls for.
#[derive(Clone, Copy, Debug, PartialEq, Eq)]
pub enum Record {
    /// The vault has no protocol.
    Basic(VaultDepositorRecord),
    /// The vault has a protocol.
    WithProtocol(VaultDepositorV1Record),
}

/// Record of a depositor's fuel being forfeited because the exchange began a new season.
#[derive(Clone, Copy, Debug, PartialEq, Eq)]
pub struct FuelSeasonRecord {
    pub ts: i64,
    pub authority: Pubkey,
    pub fuel_insurance: u128,
    pub fuel_deposits: u128,
    pub fuel_borrows: u128,
    pub fuel_positions: u128,
    pub fuel_taker: u128,
    pub fuel_maker: u128,
    /// The fuel that the depositor had.
    pub fuel_total: u128,
}

/// What an operation hands back to be published.
#[derive(Clone, Copy, Debug, PartialEq, Eq)]
pub struct Events {
    /// The operation itself.
    pub record: Record,
    /// The depositor's fuel season ending, where the operation found that it had.
    pub fuel_season: Option<FuelSeasonRecord>,
}

/// The shares on one side of an operation.
#[derive(Clone, Copy, Debug, PartialEq, Eq)]
pub struct Shares {
    /// The depositor's.
    pub depositor: u128,
    /// All depositors'.
    pub user: u128,
    /// All shares.
    pub total: u128,
    /// The protocol's.
    pub protocol: u128,
}

impl VaultDepositorV1Record {
    /// The record without what only a vault with a protocol has.
    pub open spec fn basic(self) -> VaultDepositorRecord {
        VaultDepositorRecord {
            ts: self.ts,
            vault: self.vault,
            depositor_authority: self.depositor_authority,
            action: self.action,
            amount: self.amount,
            spot_market_index: self.spot_market_index,
            vault_shares_before: self.vault_shares_before,
            vault_shares_after: self.vault_shares_after,
            vault_equity_before: self.vault_equity_before,
            user_vault_shares_before: self.user_vault_shares_before,
            total_vault_shares_before: self.total_vault_shares_before,
            user_vault_shares_after: self.user_vault_shares_after,
            total_vault_shares_after: self.total_vault_shares_after,
            profit_share: self.manager_profit_share,
            management_fee: self.management_fee,
            management_fee_shares: self.management_fee_shares,
            deposit_oracle_price: self.deposit_oracle_price,
        }
    }

    pub fn to_basic(&self) -> (r: VaultDepositorRecord)
        ensures
            r == self.basic(),
    {
        VaultDepositorRecord {
            ts: self.ts,
            vault: self.vault,
            depositor_authority: self.depositor_authority,
            action: self.action,
            amount: self.amount,
            spot_market_index: self.spot_market_index,
            vault_shares_before: self.vault_shares_before,
            vault_shares_after: self.vault_shares_after,
            vault_equity_before: self.vault_equity_before,
            user_vault_shares_before: self.user_vault_shares_before,
            total_vault_shares_before: self.total_vault_shares_before,
            user_vault_shares_after: self.user_vault_shares_after,
            total_vault_shares_after: self.total_vault_shares_after,
            profit_share: self.manager_profit_share,
            management_fee: self.management_fee,
            management_fee_shares: self.management_fee_shares,
            deposit_oracle_price: self.deposit_oracle_price,
        }
    }
}

impl Record {
    /// The record of an operation: the full one for a vault with a protocol, and the same
    /// without the protocol's fields for a vault without.
    pub open spec fn of(with_protocol: bool, full: VaultDepositorV1Record) -> Record {
        if with_protocol {
            Record::WithProtocol(full)
        } else {
            Record::Basic(full.basic())
        }
    }

    pub fn new(with_protocol: bool, full: VaultDepositorV1Record) -> (r: Record)
        ensures
            r == Self::of(with_protocol, full),
    {
        if with_protocol {
            Record::WithProtocol(full)
        } else {
            Record::Basic(full.to_basic())
        }
    }
}

} // verus!
