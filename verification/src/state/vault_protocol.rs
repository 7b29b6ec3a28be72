//! The protocol's side of a vault, for vaults that have a protocol beside the manager.

use crate::keys::{default_key, key_bytes, null_key_bytes};
use crate::state::withdraw_request::WithdrawRequest;
use anchor_lang::prelude::Pubkey;
use vstd::prelude::*;

verus! {

/// The protocol's fee rates and what it has earned.
#[derive(Clone, Copy, Debug, PartialEq, Eq)]
pub struct VaultProtocol {
    /// The protocol that services the vault.
    pub protocol: Pubkey,
    /// Shares that the protocol holds from profit share and from its annual fee.
    pub protocol_profit_and_fee_shares: u128,
    /// Annual fee on the depositors' value, in millionths.
    pub protocol_fee: u64,
    /// Lifetime withdrawals of the protocol.
    pub protocol_total_withdraws: u64,
    /// Lifetime annual fee charged by the protocol.
    pub protocol_total_fee: u64,
    /// Lifetime profit share charged by the protocol.
    pub protocol_total_profit_share: u64,
    /// The protocol's own pending withdrawal.
    pub last_protocol_withdraw_request: WithdrawRequest,
    /// The protocol's part of the depositors' profit, in millionths.
    pub protocol_profit_share: u32,
    pub bump: u8,
    pub version: u8,
}

impl Default for VaultProtocol {
    fn default() -> (r: Self)
        ensures
            key_bytes(r.protocol) == null_key_bytes(),
            r.protocol_profit_and_fee_shares == 0,
            r.protocol_fee == 0,
            r.protocol_total_withdraws == 0,
            r.protocol_total_fee == 0,
            r.protocol_total_profit_share == 0,
            r.last_protocol_withdraw_request == WithdrawRequest::empty(0),
            r.protocol_profit_share == 0,
            r.bump == 0,
            r.version == 0,
    {
        VaultProtocol {
            protocol: default_key(),
            protocol_profit_and_fee_shares: 0,
            protocol_fee: 0,
            protocol_total_withdraws: 0,
            protocol_total_fee: 0,
            protocol_total_profit_share: 0,
            last_protocol_withdraw_request: WithdrawRequest::default(),
            protocol_profit_share: 0,
            bump: 0,
            version: 0,
        }
    }
}

/// Shares that the protocol holds; none where the vault has no protocol.
pub open spec fn protocol_shares(vault_protocol: Option<VaultProtocol>) -> u128 {
    match vault_protocol {
        None => 0,
        Some(vp) => vp.protocol_profit_and_fee_shares,
    }
}

} // verus!
