use anchor_lang::prelude::Pubkey;
use drift_vaults::constants::ONE_YEAR;
use drift_vaults::state::{FuelDistributionMode, FuelOverflow, UserStats, VaultFee};
use drift_vaults::{ErrorCode, Vault, VaultProtocol};

fn funded_vault() -> Vault {
    Vault {
        total_shares: 200_000_000,
        user_shares: 100_000_000,
        ..Vault::default()
    }
}

#[test]
fn default_vault_is_empty() {
    let vault = Vault::default();
    assert_eq!(vault.total_shares, 0);
    assert_eq!(vault.user_shares, 0);
    assert_eq!(vault.shares_base, 0);
    assert_eq!(vault.liquidation_delegate, Pubkey::default());
    assert_eq!(vault.fuel_distribution_mode, FuelDistributionMode::UsersOnly);
    assert_eq!(vault.get_fuel_distribution_mode(), FuelDistributionMode::UsersOnly);
    let vp = VaultProtocol::default();
    assert_eq!(vp.protocol_profit_and_fee_shares, 0);
    assert_eq!(vp.protocol, Pubkey::default());
}

#[test]
fn manager_shares_are_what_is_left() {
    let vault = funded_vault();
    assert_eq!(vault.get_manager_shares(&None), Ok(100_000_000));
    assert_eq!(vault.get_protocol_shares(&None), 0);
    let vp = Some(VaultProtocol {
        protocol_profit_and_fee_shares: 2_500_000,
        ..VaultProtocol::default()
    });
    assert_eq!(vault.get_manager_shares(&vp), Ok(97_500_000));
    assert_eq!(vault.get_protocol_shares(&vp), 2_500_000);
    // total = user + manager + protocol
    assert_eq!(
        vault.user_shares + vault.get_manager_shares(&vp).unwrap() + vault.get_protocol_shares(&vp),
        vault.total_shares
    );
    let broken = Vault { user_shares: 200_000_001, ..vault };
    assert_eq!(broken.get_manager_shares(&None), Err(ErrorCode::MathError));
}

#[test]
fn rebase_cuts_all_share_counts_back() {
    let mut vault = Vault {
        total_shares: 10_000_000_000,
        user_shares: 5_000_000_007,
        ..Vault::default()
    };
    vault.last_manager_withdraw_request.shares = 1_999_999;
    let mut vp = Some(VaultProtocol {
        protocol_profit_and_fee_shares: 3_000_000,
        ..VaultProtocol::default()
    });
    // ten million shares per unit of value: six places too many
    assert_eq!(vault.apply_rebase(&mut vp, 1000), Ok(Some(1_000_000)));
    assert_eq!(vault.total_shares, 10_000);
    assert_eq!(vault.user_shares, 5_000);
    assert_eq!(vault.shares_base, 6);
    assert_eq!(vault.last_manager_withdraw_request.shares, 1);
    assert_eq!(vp.unwrap().protocol_profit_and_fee_shares, 3);
    // ten shares per unit is in measure
    assert_eq!(vault.apply_rebase(&mut vp, 1000), Ok(None));
    assert_eq!(vault.total_shares, 10_000);
    assert_eq!(vault.shares_base, 6);
}

#[test]
fn rebase_leaves_a_vault_in_measure_alone() {
    let mut vault = funded_vault();
    let before = vault;
    assert_eq!(vault.apply_rebase(&mut None, 2_000_001), Ok(None));
    assert_eq!(vault, before);
    // 99 shares per unit stay, 100 do not
    let mut vault = Vault { total_shares: 999, ..Vault::default() };
    assert_eq!(vault.apply_rebase(&mut None, 10), Ok(None));
    assert_eq!(vault.total_shares, 999);
    let mut vault = Vault { total_shares: 1000, ..Vault::default() };
    assert_eq!(vault.apply_rebase(&mut None, 10), Ok(Some(10)));
    assert_eq!(vault.total_shares, 100);
    assert_eq!(vault.shares_base, 1);
    // a vault worth nothing is never rebased
    let mut vault = Vault { total_shares: 1000, ..Vault::default() };
    assert_eq!(vault.apply_rebase(&mut None, 0), Ok(None));
    assert_eq!(vault.total_shares, 1000);
}

#[test]
fn rebase_gives_an_empty_vault_its_first_shares() {
    let mut vault = Vault::default();
    assert_eq!(vault.apply_rebase(&mut None, 100_000_000), Ok(None));
    assert_eq!(vault.total_shares, 100_000_000);
    assert_eq!(vault.user_shares, 0);
    assert_eq!(vault.get_manager_shares(&None), Ok(100_000_000));
}

#[test]
fn rebase_that_overflows_the_base_changes_nothing() {
    let mut vault = Vault {
        total_shares: 1000,
        shares_base: u32::MAX,
        ..Vault::default()
    };
    let before = vault;
    assert_eq!(vault.apply_rebase(&mut None, 1), Err(ErrorCode::MathError));
    assert_eq!(vault, before);
}

#[test]
fn management_fee_for_one_year() {
    let mut vault = funded_vault();
    vault.management_fee = 20_000; // 2% a year
    let fee = vault.apply_fee(&mut None, 200_000_000, ONE_YEAR as i64).unwrap();
    // the depositors' $100 pay $2; the shares grow by the factor 100 / 98 in millionths
    assert_eq!(
        fee,
        VaultFee {
            management_fee_payment: 2_000_000,
            management_fee_shares: 4_081_600,
            protocol_fee_payment: 0,
            protocol_fee_shares: 0,
        }
    );
    assert_eq!(vault.total_shares, 204_081_600);
    assert_eq!(vault.user_shares, 100_000_000);
    assert_eq!(vault.manager_total_fee, 2_000_000);
    assert_eq!(vault.last_fee_update_ts, ONE_YEAR as i64);
    assert_eq!(vault.get_manager_shares(&None), Ok(104_081_600));
}

#[test]
fn management_and_protocol_fee_share_the_new_shares() {
    let mut vault = funded_vault();
    vault.management_fee = 20_000; // 2% a year
    let mut vp = Some(VaultProtocol {
        protocol_fee: 10_000, // 1% a year
        ..VaultProtocol::default()
    });
    let fee = vault.apply_fee(&mut vp, 200_000_000, ONE_YEAR as i64).unwrap();
    assert_eq!(
        fee,
        VaultFee {
            management_fee_payment: 2_000_000,
            management_fee_shares: 4_123_600,
            protocol_fee_payment: 1_000_000,
            protocol_fee_shares: 2_061_800,
        }
    );
    assert_eq!(vault.total_shares, 206_185_400);
    assert_eq!(vp.unwrap().protocol_profit_and_fee_shares, 2_061_800);
    assert_eq!(vp.unwrap().protocol_total_fee, 1_000_000);
    assert_eq!(vault.get_manager_shares(&vp), Ok(104_123_600));
}

#[test]
fn fee_for_half_a_year_is_half() {
    let mut vault = funded_vault();
    vault.management_fee = 20_000;
    vault.last_fee_update_ts = 1000;
    let fee = vault
        .apply_fee(&mut None, 200_000_000, 1000 + ONE_YEAR as i64 / 2)
        .unwrap();
    assert_eq!(fee.management_fee_payment, 1_000_000);
    // 100 / 99 in millionths is 1_010_101
    assert_eq!(fee.management_fee_shares, 2_020_200);
    assert_eq!(vault.total_shares, 202_020_200);
}

#[test]
fn fee_too_small_to_make_a_share_waits() {
    let mut vault = funded_vault();
    vault.management_fee = 20_000;
    vault.last_fee_update_ts = 1000;
    // one second of 2% a year on $100 is less than a unit
    let fee = vault.apply_fee(&mut None, 200_000_000, 1001).unwrap();
    assert_eq!(fee.management_fee_payment, 0);
    assert_eq!(fee.management_fee_shares, 0);
    assert_eq!(vault.total_shares, 200_000_000);
    assert_eq!(vault.last_fee_update_ts, 1000);
    // sixteen seconds make a unit, but not yet a share
    let fee = vault.apply_fee(&mut None, 200_000_000, 1016).unwrap();
    assert_eq!(fee.management_fee_payment, 1);
    assert_eq!(fee.management_fee_shares, 0);
    assert_eq!(vault.last_fee_update_ts, 1000);
}

#[test]
fn fee_without_a_rate_only_moves_the_clock() {
    let mut vault = funded_vault();
    let before = vault;
    let fee = vault.apply_fee(&mut None, 200_000_000, 5000).unwrap();
    assert_eq!(fee.management_fee_payment, 0);
    assert_eq!(fee.management_fee_shares, 0);
    assert_eq!(vault, Vault { last_fee_update_ts: 5000, ..before });
    // a rate below zero charges nothing either
    let mut vault = funded_vault();
    vault.management_fee = -20_000;
    let fee = vault.apply_fee(&mut None, 200_000_000, ONE_YEAR as i64).unwrap();
    assert_eq!(fee.management_fee_payment, 0);
    assert_eq!(vault.total_shares, 200_000_000);
}

#[test]
fn fee_leaves_the_depositors_a_unit() {
    let mut vault = Vault {
        total_shares: 1000,
        user_shares: 1000,
        management_fee: 2_000_000, // 200% a year
        ..Vault::default()
    };
    let fee = vault.apply_fee(&mut None, 1000, ONE_YEAR as i64).unwrap();
    assert_eq!(fee.management_fee_payment, 999);
    // the shares grow a thousandfold, to a thousand per unit of value: a rebase by two places
    assert_eq!(fee.management_fee_shares, 999_000);
    assert_eq!(vault.total_shares, 10_000);
    assert_eq!(vault.user_shares, 10);
    assert_eq!(vault.shares_base, 2);
}

#[test]
fn fee_on_inconsistent_shares_changes_nothing() {
    let mut vault = Vault {
        total_shares: 10,
        user_shares: 11,
        management_fee: 20_000,
        ..Vault::default()
    };
    let before = vault;
    assert_eq!(
        vault.apply_fee(&mut None, 1000, ONE_YEAR as i64),
        Err(ErrorCode::InvalidVaultSharesDetected)
    );
    assert_eq!(vault, before);
}

#[test]
fn fuel_per_share_follows_the_exchange() {
    let mut vault = Vault {
        total_shares: 1_000_000,
        user_shares: 500_000,
        ..Vault::default()
    };
    let stats = UserStats { fuel_taker: 60_000, ..UserStats::default() };
    // 60_000 fuel over 500_000 shares
    assert_eq!(
        vault.update_cumulative_fuel_per_share(1000, &stats, &None),
        Ok(120_000_000_000_000_000)
    );
    assert_eq!(vault.cumulative_fuel, 60_000);
    assert_eq!(vault.last_cumulative_fuel_per_share_ts, 1000);
    // the clock has not moved on: nothing is read
    let more = UserStats { fuel_taker: 70_000, ..UserStats::default() };
    assert_eq!(
        vault.update_cumulative_fuel_per_share(1000, &more, &None),
        Ok(120_000_000_000_000_000)
    );
    assert_eq!(vault.cumulative_fuel, 60_000);
    // 10_000 more, with what the counters could not hold
    let overflow = Some(FuelOverflow { fuel_maker: 5_000, ..FuelOverflow::default() });
    assert_eq!(
        vault.update_cumulative_fuel_per_share(1001, &more, &overflow),
        Ok(150_000_000_000_000_000)
    );
    assert_eq!(vault.cumulative_fuel, 75_000);
}

#[test]
fn fuel_per_share_starts_again_with_a_new_season() {
    let mut vault = Vault {
        total_shares: 1_000_000,
        user_shares: 500_000,
        cumulative_fuel: 100,
        cumulative_fuel_per_share: 7,
        ..Vault::default()
    };
    let stats = UserStats { fuel_deposits: 40, ..UserStats::default() };
    assert_eq!(vault.update_cumulative_fuel_per_share(10, &stats, &None), Ok(0));
    assert_eq!(vault.cumulative_fuel, 40);
    assert_eq!(vault.cumulative_fuel_per_share, 0);
    assert_eq!(vault.last_cumulative_fuel_per_share_ts, 10);
}

#[test]
fn fuel_without_shares_is_dropped() {
    let mut vault = Vault::default();
    let stats = UserStats { fuel_deposits: 40, ..UserStats::default() };
    assert_eq!(vault.update_cumulative_fuel_per_share(10, &stats, &None), Ok(0));
    assert_eq!(vault.cumulative_fuel, 40);
    assert_eq!(vault.cumulative_fuel_per_share, 0);
}

#[test]
fn fuel_total_that_does_not_fit_changes_nothing() {
    let mut vault = funded_vault();
    let before = vault;
    let stats = UserStats { fuel_deposits: 1, ..UserStats::default() };
    let overflow = Some(FuelOverflow { fuel_maker: u128::MAX, ..FuelOverflow::default() });
    assert_eq!(
        vault.update_cumulative_fuel_per_share(10, &stats, &overflow),
        Err(ErrorCode::MathError)
    );
    assert_eq!(vault, before);
}

#[test]
fn reset_liquidation_delegate_clears_the_delegate() {
    let mut vault = funded_vault();
    vault.liquidation_delegate = Pubkey::new_from_array([7u8; 32]);
    vault.liquidation_start_ts = 99;
    let before = vault;
    vault.reset_liquidation_delegate();
    assert_eq!(vault.liquidation_delegate, Pubkey::default());
    assert_eq!(vault.liquidation_start_ts, 0);
    assert_eq!(
        vault,
        Vault {
            liquidation_delegate: Pubkey::default(),
            liquidation_start_ts: 0,
            ..before
        }
    );
}
