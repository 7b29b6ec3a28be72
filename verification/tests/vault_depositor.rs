use anchor_lang::prelude::Pubkey;
use drift_vaults::constants::{PERCENTAGE_PRECISION_U64, QUOTE_PRECISION_U64};
use drift_vaults::math::depositor_shares_to_vault_amount;
use drift_vaults::state::{FuelDistributionMode, UserStats};
use drift_vaults::{Vault, VaultDepositor, VaultProtocol, WithdrawUnit};

fn assert_eq_within(left: u128, right: u128, tolerance: u128, what: String) {
    let diff = if left > right { left - right } else { right - left };
    assert!(diff <= tolerance, "{}: {} and {} differ by more than {}", what, left, right, tolerance);
}

#[test]
fn base_init() {
    let now = 1337;
    let vd = VaultDepositor::new(Pubkey::default(), Pubkey::default(), Pubkey::default(), now);
    assert_eq!(vd.vault_shares_base, 0);
    assert_eq!(vd.last_valid_ts, now);
}

#[test]
fn test_deposit_withdraw() {
    let now = 1000;
    let mut vault = Vault::default();
    let mut vp = Some(VaultProtocol::default());

    let vd = &mut VaultDepositor::new(Pubkey::default(), Pubkey::default(), Pubkey::default(), now);

    let vault_equity: u64 = 100 * QUOTE_PRECISION_U64; // $100 in total equity
    let amount: u64 = 100 * QUOTE_PRECISION_U64; // $100 of new deposits to add to total equity, for new total of $200
    vd.deposit(
        amount,
        vault_equity,
        &mut vault,
        &mut vp,
        now + 20,
        &UserStats::default(),
        &None,
        0,
    )
    .unwrap();

    let vault_equity: u64 = 200 * QUOTE_PRECISION_U64;

    vd.request_withdraw(
        amount,
        WithdrawUnit::Token,
        vault_equity,
        &mut vault,
        &mut vp,
        now + 20,
        &UserStats::default(),
        &None,
        0,
    )
    .unwrap();

    let (withdraw_amount, _, _) = vd
        .withdraw(
            vault_equity,
            &mut vault,
            &mut vp,
            now + 20,
            &UserStats::default(),
            &None,
            0,
        )
        .unwrap();
    assert_eq!(vd.vault_shares_base, 0);
    assert_eq!(withdraw_amount, amount);
}

#[test]
fn test_deposit_partial_withdraw_profit_share() {
    let now = 1000;
    let mut vault = Vault::default();
    let mut vp = Some(VaultProtocol::default());

    let vd = &mut VaultDepositor::new(Pubkey::default(), Pubkey::default(), Pubkey::default(), now);

    let mut vault_equity: u64 = 100 * QUOTE_PRECISION_U64; // $100 in total equity for depositor
    let amount: u64 = 100 * QUOTE_PRECISION_U64; // $100 in total equity for vault
    vd.deposit(
        amount,
        vault_equity,
        &mut vault,
        &mut vp,
        now + 20,
        &UserStats::default(),
        &None,
        0,
    )
    .unwrap();
    assert_eq!(vd.vault_shares_base, 0);
    assert_eq!(vd.checked_vault_shares(&vault).unwrap(), 100_000_000); // 100_000_000 shares or $200 in equity
    assert_eq!(vault.user_shares, 100_000_000);
    assert_eq!(vault.total_shares, 200_000_000);

    vault.profit_share = 100_000; // 10% profit share
    vp.as_mut().unwrap().protocol_profit_share = 50_000; // 5% profit share
    vault_equity = 400 * QUOTE_PRECISION_U64; // vault gains 100% in value ($200 -> $400)

    // withdraw principal
    vd.request_withdraw(
        amount, // only withdraw profit ($100)
        WithdrawUnit::Token,
        vault_equity,
        &mut vault,
        &mut vp,
        now + 20,
        &UserStats::default(),
        &None,
        0,
    )
    .unwrap();
    // 100M shares, 50M of which are profit. 15% profit share on 50M shares is 7.5M shares. 100M - 7.5M = 92.5M shares
    assert_eq!(vd.checked_vault_shares(&vault).unwrap(), 92_500_000);

    assert_eq!(vd.last_withdraw_request.shares, 50_000_000);
    assert_eq!(vd.last_withdraw_request.value, 100_000_000);
    assert_eq!(vd.last_withdraw_request.ts, now + 20);

    let (withdraw_amount, _ll, _) = vd
        .withdraw(
            vault_equity,
            &mut vault,
            &mut vp,
            now + 20,
            &UserStats::default(),
            &None,
            0,
        )
        .unwrap();
    // 100M shares minus 50M shares of profit and 15% or 7.5M profit share = 42.5M shares
    assert_eq!(vd.checked_vault_shares(&vault).unwrap(), 42_500_000);
    assert_eq!(vault.user_shares, 42_500_000);
    // manager is 200M total shares - 100M user shares + 5M or 10% profit share from user withdrawal.
    assert_eq!(vault.get_manager_shares(&vp).unwrap(), 105_000_000);
    // protocol received 5% profit share on 50M shares, or 2.5M shares.
    assert_eq!(vault.get_protocol_shares(&vp), 2_500_000);
    assert_eq!(vd.vault_shares_base, 0);
    assert_eq!(vault.total_shares, 150_000_000);
    assert_eq!(withdraw_amount, amount);

    vault_equity -= withdraw_amount;

    let manager_owned_shares = vault.get_manager_shares(&vp).unwrap();
    let manager_owned_amount =
        depositor_shares_to_vault_amount(manager_owned_shares, vault.total_shares, vault_equity)
            .unwrap();
    // 100M shares or $200 in equity plus 10% of 50M shares or $100 profit which is $10, for a total of $210.
    assert_eq!(manager_owned_amount, 210_000_000);

    let user_owned_shares = vault.user_shares;
    let user_owned_amount =
        depositor_shares_to_vault_amount(user_owned_shares, vault.total_shares, vault_equity)
            .unwrap();
    // $200 in equity - $100 in realized profit - 15% profit share on $100 = $85
    assert_eq!(user_owned_amount, 85_000_000);

    let protocol_owned_shares = vault.get_protocol_shares(&vp);
    let protocol_owned_amount =
        depositor_shares_to_vault_amount(protocol_owned_shares, vault.total_shares, vault_equity)
            .unwrap();
    // 5% profit share on $100 = $5
    assert_eq!(protocol_owned_amount, 5_000_000);
}

#[test]
fn test_deposit_partial_withdraw_profit_share_no_protocol() {
    let now = 1000;
    let mut vault = Vault::default();
    let mut vp = Some(VaultProtocol::default());

    let vd = &mut VaultDepositor::new(Pubkey::default(), Pubkey::default(), Pubkey::default(), now);

    let mut vault_equity: u64 = 100 * QUOTE_PRECISION_U64; // $100 in total equity for depositor
    let amount: u64 = 100 * QUOTE_PRECISION_U64; // $100 in total equity for vault
    vd.deposit(
        amount,
        vault_equity,
        &mut vault,
        &mut vp,
        now + 20,
        &UserStats::default(),
        &None,
        0,
    )
    .unwrap();
    assert_eq!(vd.vault_shares_base, 0);
    assert_eq!(vd.checked_vault_shares(&vault).unwrap(), 100_000_000); // 100_000_000 shares or $200 in equity
    assert_eq!(vault.user_shares, 100_000_000);
    assert_eq!(vault.total_shares, 200_000_000);

    vault.profit_share = 100_000; // 10% profit share
    vault_equity = 400 * QUOTE_PRECISION_U64; // vault gains 100% in value ($200 -> $400)

    // withdraw principal
    vd.request_withdraw(
        amount, // only withdraw profit ($100)
        WithdrawUnit::Token,
        vault_equity,
        &mut vault,
        &mut vp,
        now + 20,
        &UserStats::default(),
        &None,
        0,
    )
    .unwrap();
    assert_eq!(vd.checked_vault_shares(&vault).unwrap(), 95_000_000);

    assert_eq!(vd.last_withdraw_request.shares, 50_000_000);
    assert_eq!(vd.last_withdraw_request.value, 100_000_000);
    assert_eq!(vd.last_withdraw_request.ts, now + 20);

    let (withdraw_amount, _ll, _) = vd
        .withdraw(
            vault_equity,
            &mut vault,
            &mut vp,
            now + 20,
            &UserStats::default(),
            &None,
            0,
        )
        .unwrap();
    assert_eq!(vd.checked_vault_shares(&vault).unwrap(), 45_000_000);
    assert_eq!(vd.vault_shares_base, 0);
    assert_eq!(vault.user_shares, 45_000_000);
    assert_eq!(vault.total_shares, 150_000_000);
    assert_eq!(withdraw_amount, amount);

    vault_equity -= withdraw_amount;

    let manager_owned_shares = vault.get_manager_shares(&vp).unwrap();
    let manager_owned_amount =
        depositor_shares_to_vault_amount(manager_owned_shares, vault.total_shares, vault_equity)
            .unwrap();
    assert_eq!(manager_owned_amount, 210_000_000); // $210

    let user_owned_shares = vault.user_shares;
    let user_owned_amount =
        depositor_shares_to_vault_amount(user_owned_shares, vault.total_shares, vault_equity)
            .unwrap();
    assert_eq!(user_owned_amount, 90_000_000); // $90

    let protocol_owned_shares = vault.get_protocol_shares(&vp);
    let protocol_owned_amount =
        depositor_shares_to_vault_amount(protocol_owned_shares, vault.total_shares, vault_equity)
            .unwrap();
    println!("protocol amount: {}", protocol_owned_amount);
    assert_eq!(protocol_owned_amount, 0);
}

#[test]
fn test_deposit_full_withdraw_profit_share() {
    let now = 1000;
    let mut vault = Vault::default();
    let mut vp = Some(VaultProtocol::default());

    let vd = &mut VaultDepositor::new(Pubkey::default(), Pubkey::default(), Pubkey::default(), now);

    let mut vault_equity: u64 = 100 * QUOTE_PRECISION_U64;
    let amount: u64 = 100 * QUOTE_PRECISION_U64;
    vd.deposit(
        amount,
        vault_equity,
        &mut vault,
        &mut vp,
        now + 20,
        &UserStats::default(),
        &None,
        0,
    )
    .unwrap();
    assert_eq!(vd.vault_shares_base, 0);
    assert_eq!(vd.checked_vault_shares(&vault).unwrap(), 100_000_000);
    assert_eq!(vault.user_shares, 100_000_000);
    assert_eq!(vault.total_shares, 200_000_000);

    vault.profit_share = 100_000; // 10% profit share
    vp.as_mut().unwrap().protocol_profit_share = 50_000; // 5% profit share
    vault_equity = 400 * QUOTE_PRECISION_U64; // up 100%

    // withdraw all
    vd.request_withdraw(
        185 * QUOTE_PRECISION_U64, // vault_equity * (100% - 15% profit share)
        WithdrawUnit::Token,
        vault_equity,
        &mut vault,
        &mut vp,
        now + 20,
        &UserStats::default(),
        &None,
        0,
    )
    .unwrap();
    // user has 100M shares, with 100% profit, so 50M shares are profit.
    // profit share of 15% of 50M shares is 7.5M shares, and 100M - 7.5M = 92.5M shares
    assert_eq!(vd.checked_vault_shares(&vault).unwrap(), 92_500_000);
    assert_eq!(vd.last_withdraw_request.shares, 92_500_000);
    // user has 200M worth of value, with 15% profit share on 100M in profit, or 200M - 15M = 185M
    assert_eq!(vd.last_withdraw_request.value, 185_000_000);
    assert_eq!(vd.last_withdraw_request.ts, now + 20);

    let (withdraw_amount, _, _) = vd
        .withdraw(
            vault_equity,
            &mut vault,
            &mut vp,
            now + 20,
            &UserStats::default(),
            &None,
            0,
        )
        .unwrap();
    let profit = amount;
    let equity_minus_fee = amount + profit - (profit as f64 * 0.15).round() as u64;
    assert_eq!(vd.checked_vault_shares(&vault).unwrap(), 0);
    assert_eq!(vd.vault_shares_base, 0);
    assert_eq!(vault.user_shares, 0);
    // user had 100M shares, vault had 200M total
    // user paid 15% profit share on 50M shares, or 7.5M shares
    // total shares outside of user is now 100M + 7.5M = 107.5M
    assert_eq!(vault.total_shares, 107_500_000);
    assert_eq!(withdraw_amount, equity_minus_fee);
    // the whole $100 of profit is behind the high-water mark
    assert_eq!(vd.cumulative_profit_share_amount, 100_000_000);
    // $85 = 100 - 10% - 5%, worth of profit that the depositor keeps (this is not total fees paid)
    assert_eq!(
        vd.cumulative_profit_share_amount as u64 - vd.profit_share_fee_paid,
        85_000_000
    );
    println!("vault shares: {}", vd.checked_vault_shares(&vault).unwrap());
    println!("shares base: {}", vd.vault_shares_base);
    println!("user shares: {}", vault.user_shares);
    println!("total shares: {}", vault.total_shares);
    println!(
        "withdraw amount: {}, actual: {}",
        withdraw_amount, equity_minus_fee
    );
    println!(
        "cum profit share amount: {}",
        vd.cumulative_profit_share_amount
    );

    vault_equity -= withdraw_amount;

    let manager_owned_shares = vault.get_manager_shares(&vp).unwrap();
    let manager_owned_amount =
        depositor_shares_to_vault_amount(manager_owned_shares, vault.total_shares, vault_equity)
            .unwrap();
    println!(
        "manager total profit share: {}",
        vault.manager_total_profit_share
    );
    println!("manager shares: {}", manager_owned_shares);
    println!("manager owned amount: {}", manager_owned_amount);
    // 10% of 50M shares of profit on top of 100M owned shares
    assert_eq!(manager_owned_shares, 105_000_000);
    // 10% of $100 in profit on top of $200 in owned equity
    // totals $210 in equity
    assert_eq!(manager_owned_amount, 210_000_000);

    let protocol_owned_shares = vault.get_protocol_shares(&vp);
    let protocol_owned_amount =
        depositor_shares_to_vault_amount(protocol_owned_shares, vault.total_shares, vault_equity)
            .unwrap();
    println!(
        "protocol total profit share: {}",
        vp.as_ref().unwrap().protocol_total_profit_share
    );
    println!("protocol shares: {}", protocol_owned_shares);
    println!("protocol amount: {}", protocol_owned_amount);
    // 5% of 50M shares of profit
    assert_eq!(protocol_owned_shares, 2_500_000);
    // 5% of $100 in profit which totals $5 in equity
    assert_eq!(protocol_owned_amount, 5_000_000);
}

#[test]
fn test_deposit_full_withdraw_profit_share_no_protocol() {
    let now = 1000;
    let mut vault = Vault::default();
    let mut vp = Some(VaultProtocol::default());

    let vd = &mut VaultDepositor::new(Pubkey::default(), Pubkey::default(), Pubkey::default(), now);

    let mut vault_equity: u64 = 100 * QUOTE_PRECISION_U64;
    let amount: u64 = 100 * QUOTE_PRECISION_U64;
    vd.deposit(
        amount,
        vault_equity,
        &mut vault,
        &mut vp,
        now + 20,
        &UserStats::default(),
        &None,
        0,
    )
    .unwrap();
    assert_eq!(vd.vault_shares_base, 0);
    assert_eq!(vd.checked_vault_shares(&vault).unwrap(), 100_000_000);
    assert_eq!(vault.user_shares, 100_000_000);
    assert_eq!(vault.total_shares, 200_000_000);

    vault.profit_share = 100_000; // 10% profit share
    vault_equity = 400 * QUOTE_PRECISION_U64; // up 100%

    // withdraw all
    vd.request_withdraw(
        190 * QUOTE_PRECISION_U64, // vault_equity * (100% - 10% profit share)
        WithdrawUnit::Token,
        vault_equity,
        &mut vault,
        &mut vp,
        now + 20,
        &UserStats::default(),
        &None,
        0,
    )
    .unwrap();
    // user has 100M shares, with 100% profit, so 50M shares are profit.
    // profit share of 10% of 50M shares is 5M shares, and 100M - 5M = 95M shares
    assert_eq!(vd.checked_vault_shares(&vault).unwrap(), 95_000_000);
    assert_eq!(vd.last_withdraw_request.shares, 95_000_000);
    // user has 200M worth of value, with 10% profit share on 100M in profit, or 200M - 10M = 190M
    assert_eq!(vd.last_withdraw_request.value, 190_000_000);
    assert_eq!(vd.last_withdraw_request.ts, now + 20);

    let (withdraw_amount, _, _) = vd
        .withdraw(
            vault_equity,
            &mut vault,
            &mut vp,
            now + 20,
            &UserStats::default(),
            &None,
            0,
        )
        .unwrap();
    let profit = amount;
    let equity_minus_fee = amount + profit - (profit as f64 * 0.10).round() as u64;
    assert_eq!(vd.checked_vault_shares(&vault).unwrap(), 0);
    assert_eq!(vd.vault_shares_base, 0);
    assert_eq!(vault.user_shares, 0);
    // user had 100M shares, vault had 200M total
    // user paid 10% profit share on 50M shares, or 5M shares
    // total shares outside of user is now 100M + 5M = 105M
    assert_eq!(vault.total_shares, 105_000_000);
    assert_eq!(withdraw_amount, equity_minus_fee);
    // the whole $100 of profit is behind the high-water mark
    assert_eq!(vd.cumulative_profit_share_amount, 100_000_000);
    // $90 = $100 - 10% worth of profit that the depositor keeps (this is not total fees paid)
    assert_eq!(
        vd.cumulative_profit_share_amount as u64 - vd.profit_share_fee_paid,
        90_000_000
    );
    println!("vault shares: {}", vd.checked_vault_shares(&vault).unwrap());
    println!("shares base: {}", vd.vault_shares_base);
    println!("user shares: {}", vault.user_shares);
    println!("total shares: {}", vault.total_shares);
    println!(
        "withdraw amount: {}, actual: {}",
        withdraw_amount, equity_minus_fee
    );
    println!(
        "cum profit share amount: {}",
        vd.cumulative_profit_share_amount
    );

    vault_equity -= withdraw_amount;

    let manager_owned_shares = vault.get_manager_shares(&vp).unwrap();
    let manager_owned_amount =
        depositor_shares_to_vault_amount(manager_owned_shares, vault.total_shares, vault_equity)
            .unwrap();
    println!(
        "manager total profit share: {}",
        vault.manager_total_profit_share
    );
    println!("manager shares: {}", manager_owned_shares);
    println!("manager owned amount: {}", manager_owned_amount);
    // 10% of 50M shares of profit on top of 100M owned shares
    assert_eq!(manager_owned_shares, 105_000_000);
    // 10% of $100 in profit on top of $200 in owned equity
    // totals $210 in equity
    assert_eq!(manager_owned_amount, 210_000_000);

    let protocol_owned_shares = vault.get_protocol_shares(&vp);
    let protocol_owned_amount =
        depositor_shares_to_vault_amount(protocol_owned_shares, vault.total_shares, vault_equity)
            .unwrap();
    println!(
        "protocol total profit share: {}",
        vp.as_ref().unwrap().protocol_total_profit_share
    );
    println!("protocol shares: {}", protocol_owned_shares);
    println!("protocol amount: {}", protocol_owned_amount);
    // 0% of 50M shares of profit is 0 shares
    assert_eq!(protocol_owned_shares, 0);
    // 0% of $100 in profit which totals $0 in equity
    assert_eq!(protocol_owned_amount, 0);
}

#[test]
fn test_force_realize_profit_share() {
    let now = 1000;
    let mut vault = Vault::default();
    let mut vp = Some(VaultProtocol::default());

    let vd = &mut VaultDepositor::new(Pubkey::default(), Pubkey::default(), Pubkey::default(), now);

    let mut vault_equity: u64 = 100 * QUOTE_PRECISION_U64; // $100 in equity
    let amount: u64 = 100 * QUOTE_PRECISION_U64;
    vd.deposit(
        amount,
        vault_equity,
        &mut vault,
        &mut vp,
        now,
        &UserStats::default(),
        &None,
        0,
    )
    .unwrap();
    assert_eq!(vd.vault_shares_base, 0);
    assert_eq!(vd.checked_vault_shares(&vault).unwrap(), 100000000);
    assert_eq!(vault.user_shares, 100000000);
    assert_eq!(vault.total_shares, 200000000);

    vault.profit_share = 100_000; // 10% profit share
    vault_equity = 400 * QUOTE_PRECISION_U64; // up 100%

    vd.realize_profits(
        vault_equity,
        &mut vault,
        &mut vp,
        now,
        &UserStats::default(),
        &None,
        0,
    )
    .unwrap();

    println!("vault shares: {}", vd.checked_vault_shares(&vault).unwrap());
    println!(
        "cum profit share amount: {}",
        vd.cumulative_profit_share_amount
    );
    println!("user shares: {}", vault.user_shares);
    println!("total shares: {}", vault.total_shares);

    // withdraw all
    vd.request_withdraw(
        190 * QUOTE_PRECISION_U64,
        WithdrawUnit::Token,
        vault_equity,
        &mut vault,
        &mut vp,
        now + 20,
        &UserStats::default(),
        &None,
        0,
    )
    .unwrap();
    assert_eq!(vd.checked_vault_shares(&vault).unwrap(), 95000000);

    assert_eq!(vd.last_withdraw_request.value, 190000000);
    assert_eq!(vd.last_withdraw_request.ts, now + 20);

    let (withdraw_amount, _ll, _) = vd
        .withdraw(
            vault_equity,
            &mut vault,
            &mut vp,
            now + 20,
            &UserStats::default(),
            &None,
            0,
        )
        .unwrap();
    assert_eq!(withdraw_amount, amount * 2 - amount * 2 / 20);
    println!("vault shares: {}", vd.checked_vault_shares(&vault).unwrap());
    println!("shares base: {}", vd.vault_shares_base);
    println!("user shares: {}", vault.user_shares);
    println!("total shares: {}", vault.total_shares);
    println!(
        "cum profit share amount: {}",
        vd.cumulative_profit_share_amount
    );
}

#[test]
fn test_vault_depositor_request_in_loss_withdraw_in_profit() {
    // test for vault depositor who requests withdraw when in loss
    // then waits redeem period for withdraw
    // upon withdraw, vault depositor would have been in profit had they not requested in loss
    // should get request withdraw valuation and not break invariants

    let now = 1000;
    let mut vault = Vault::default();
    let mut vp = Some(VaultProtocol::default());

    let vd = &mut VaultDepositor::new(Pubkey::default(), Pubkey::default(), Pubkey::default(), now);

    let mut vault_equity: u64 = 100 * QUOTE_PRECISION_U64;
    let amount: u64 = 100 * QUOTE_PRECISION_U64;
    vd.deposit(
        amount,
        vault_equity,
        &mut vault,
        &mut vp,
        now,
        &UserStats::default(),
        &None,
        0,
    )
    .unwrap();
    assert_eq!(vd.vault_shares_base, 0);
    assert_eq!(vd.checked_vault_shares(&vault).unwrap(), 100000000);
    assert_eq!(vault.user_shares, 100000000);
    assert_eq!(vault.total_shares, 200000000);

    vault.profit_share = 100_000; // 10% profit share
    vp.as_mut().unwrap().protocol_profit_share = 50_000; // 5% profit share
    vault.redeem_period = 3600; // 1 hour
    vault_equity = 100 * QUOTE_PRECISION_U64; // down 50%

    println!("vault shares: {}", vd.checked_vault_shares(&vault).unwrap());
    println!(
        "cum profit share amount: {}",
        vd.cumulative_profit_share_amount
    );
    println!("user shares: {}", vault.user_shares);
    println!("total shares: {}", vault.total_shares);

    vd.realize_profits(
        vault_equity,
        &mut vault,
        &mut vp,
        now,
        &UserStats::default(),
        &None,
        0,
    )
    .unwrap(); // should be noop

    // request withdraw all
    vd.request_withdraw(
        PERCENTAGE_PRECISION_U64,
        WithdrawUnit::SharesPercent,
        vault_equity,
        &mut vault,
        &mut vp,
        now + 20,
        &UserStats::default(),
        &None,
        0,
    )
    .unwrap();
    println!("request shares: {}", vd.last_withdraw_request.shares);

    assert_eq!(vd.last_withdraw_request.ts, now + 20);
    println!("request value: {}", vd.last_withdraw_request.value);

    vault_equity *= 5; // up 400%

    let (withdraw_amount, _ll, _) = vd
        .withdraw(
            vault_equity,
            &mut vault,
            &mut vp,
            now + 20 + 3600,
            &UserStats::default(),
            &None,
            0,
        )
        .unwrap();
    assert_eq!(withdraw_amount, 50000000);
    println!("vault shares: {}", vd.checked_vault_shares(&vault).unwrap());
    println!("shares base: {}", vd.vault_shares_base);
    println!("user shares: {}", vault.user_shares);
    println!("total shares: {}", vault.total_shares);
    println!(
        "cum profit share amount: {}",
        vd.cumulative_profit_share_amount
    );
}

#[test]
fn test_vault_depositor_request_in_profit_withdraw_in_loss() {
    // test for vault depositor who requests withdraw when in profit
    // then waits redeem period for withdraw
    // upon withdraw, vault depositor is in loss even though they withdrew in profit
    // should get withdraw valuation and not break invariants

    let now = 1000;
    let mut vault = Vault::default();
    let mut vp = Some(VaultProtocol::default());

    let vd = &mut VaultDepositor::new(Pubkey::default(), Pubkey::default(), Pubkey::default(), now);

    let mut vault_equity: u64 = 100 * QUOTE_PRECISION_U64;
    let amount: u64 = 100 * QUOTE_PRECISION_U64;
    vd.deposit(
        amount,
        vault_equity,
        &mut vault,
        &mut vp,
        now,
        &UserStats::default(),
        &None,
        0,
    )
    .unwrap();
    assert_eq!(vd.vault_shares_base, 0);
    assert_eq!(vd.checked_vault_shares(&vault).unwrap(), 100000000);
    assert_eq!(vault.user_shares, 100000000);
    assert_eq!(vault.total_shares, 200000000);

    vault.profit_share = 100_000; // 10% profit share
    vp.as_mut().unwrap().protocol_profit_share = 50_000; // 5% profit share
    vault.redeem_period = 3600; // 1 hour
    vault_equity = 200 * QUOTE_PRECISION_U64;

    println!("vault shares: {}", vd.checked_vault_shares(&vault).unwrap());
    println!(
        "cum profit share amount: {}",
        vd.cumulative_profit_share_amount
    );
    println!("user shares: {}", vault.user_shares);
    println!("total shares: {}", vault.total_shares);

    vd.realize_profits(
        vault_equity,
        &mut vault,
        &mut vp,
        now,
        &UserStats::default(),
        &None,
        0,
    )
    .unwrap(); // should be noop

    // request withdraw all
    vd.request_withdraw(
        PERCENTAGE_PRECISION_U64,
        WithdrawUnit::SharesPercent,
        vault_equity,
        &mut vault,
        &mut vp,
        now + 20,
        &UserStats::default(),
        &None,
        0,
    )
    .unwrap();
    println!("request shares: {}", vd.last_withdraw_request.shares);

    assert_eq!(vd.last_withdraw_request.value, 100000000);
    assert_eq!(vd.last_withdraw_request.ts, now + 20);

    vault_equity /= 5; // down 80%

    let (withdraw_amount, _ll, _) = vd
        .withdraw(
            vault_equity,
            &mut vault,
            &mut vp,
            now + 20 + 3600,
            &UserStats::default(),
            &None,
            0,
        )
        .unwrap();
    assert_eq!(withdraw_amount, 20000000); // getting back 20% of deposit
    println!("vault shares: {}", vd.checked_vault_shares(&vault).unwrap());
    println!("shares base: {}", vd.vault_shares_base);
    println!("user shares: {}", vault.user_shares);
    println!("total shares: {}", vault.total_shares);
    println!(
        "cum profit share amount: {}",
        vd.cumulative_profit_share_amount
    );
}

fn fuel_stats(each: u32) -> UserStats {
    UserStats {
        fuel_insurance: each,
        fuel_deposits: each,
        fuel_borrows: each,
        fuel_positions: each,
        fuel_taker: each,
        fuel_maker: each, // total = 6 * each
    }
}

fn depositor_with_shares(now: i64, shares: u128, last_fuel_update_ts: Option<u32>) -> VaultDepositor {
    let mut vd = VaultDepositor::new(Pubkey::default(), Pubkey::default(), Pubkey::default(), now);
    vd.vault_shares = shares;
    if let Some(ts) = last_fuel_update_ts {
        vd.last_fuel_update_ts = ts;
    }
    vd
}

#[test]
fn test_vault_depositor_shares_fuel_users_only() {
    let now = 1000;
    let mut vault = Vault {
        total_shares: 1_000_000,
        ..Vault::default()
    };
    // default is users only

    let vd_0 = &mut depositor_with_shares(now, 200_000, Some(now as u32 - 1));
    let vd_1 = &mut depositor_with_shares(now, 300_000, Some(now as u32 - 1));
    vault.user_shares = 500_000;

    let mut vault_user_stats = fuel_stats(10_000); // total = 60k

    // 1) first crank
    let now = 1000;
    let vd_0_fuel_amount = vd_0
        .update_cumulative_fuel_amount(now, &mut vault, &vault_user_stats, &None)
        .unwrap()
        .0;
    assert_eq!(vd_0_fuel_amount, 24_000);
    assert_eq!(vd_0.fuel_amount, 24_000);
    assert_eq!(vault.cumulative_fuel, 60_000);

    let vd_1_fuel_amount = vd_1
        .update_cumulative_fuel_amount(now, &mut vault, &vault_user_stats, &None)
        .unwrap()
        .0;
    assert_eq!(vd_1_fuel_amount, 36_000);
    assert_eq!(vd_1.fuel_amount, 36_000);
    assert_eq!(vault.cumulative_fuel, 60_000);

    // 2) time advances, no new fuel
    let now = 2000;
    let vd_0_fuel_amount = vd_0
        .update_cumulative_fuel_amount(now, &mut vault, &vault_user_stats, &None)
        .unwrap()
        .0;
    assert_eq!(vd_0_fuel_amount, 24_000);
    assert_eq!(vd_0.fuel_amount, 24_000);
    assert_eq!(vault.cumulative_fuel, 60_000);

    let vd_1_fuel_amount = vd_1
        .update_cumulative_fuel_amount(now, &mut vault, &vault_user_stats, &None)
        .unwrap()
        .0;
    assert_eq!(vd_1_fuel_amount, 36_000);
    assert_eq!(vd_1.fuel_amount, 36_000);
    assert_eq!(vault.cumulative_fuel, 60_000);

    // 3) time advances, 10k more fuel
    let now = 3000;
    vault_user_stats.fuel_maker += 10_000; // total = 70k
    let vd_0_fuel_amount = vd_0
        .update_cumulative_fuel_amount(now, &mut vault, &vault_user_stats, &None)
        .unwrap()
        .0;
    assert_eq!(vd_0_fuel_amount, 28_000);
    assert_eq!(vd_0.fuel_amount, 28_000);
    assert_eq!(vault.cumulative_fuel, 70_000);

    let vd_1_fuel_amount = vd_1
        .update_cumulative_fuel_amount(now, &mut vault, &vault_user_stats, &None)
        .unwrap()
        .0;
    assert_eq!(vd_1_fuel_amount, 42_000);
    assert_eq!(vd_1.fuel_amount, 42_000);
    assert_eq!(vault.cumulative_fuel, 70_000);

    // 4) time advances, more fuel, vd_0 cranks twice, vd_1 cranks once
    let now = 4000;
    vault_user_stats.fuel_maker += 10_000; // total = 80k
    let vd_0_fuel_amount = vd_0
        .update_cumulative_fuel_amount(now, &mut vault, &vault_user_stats, &None)
        .unwrap()
        .0;
    assert_eq!(vd_0_fuel_amount, 32_000);
    assert_eq!(vd_0.fuel_amount, 32_000);
    assert_eq!(vd_1.fuel_amount, 42_000);
    assert_eq!(vault.cumulative_fuel, 80_000);

    let now = 5000;
    vault_user_stats.fuel_maker += 10_000; // total = 90k
    let vd_0_fuel_amount = vd_0
        .update_cumulative_fuel_amount(now, &mut vault, &vault_user_stats, &None)
        .unwrap()
        .0;
    assert_eq!(vd_0_fuel_amount, 36_000);
    assert_eq!(vd_1.fuel_amount, 42_000);
    assert_eq!(vault.cumulative_fuel, 90_000);

    let vd_1_fuel_amount = vd_1
        .update_cumulative_fuel_amount(now, &mut vault, &vault_user_stats, &None)
        .unwrap()
        .0;
    assert_eq!(vd_1_fuel_amount, 54_000);
    assert_eq!(vd_1.fuel_amount, 54_000);
    assert_eq!(vd_0.fuel_amount, 36_000);

    assert_eq!(vault.cumulative_fuel, 90_000);
}

#[test]
fn test_vault_depositor_shares_fuel_users_and_manager() {
    let now = 1000;
    let mut vault = Vault {
        total_shares: 1_000_000,
        ..Vault::default()
    };
    vault.fuel_distribution_mode = FuelDistributionMode::UsersAndManager;

    let vd_0 = &mut depositor_with_shares(now, 200_000, Some(now as u32 - 1));
    let vd_1 = &mut depositor_with_shares(now, 300_000, Some(now as u32 - 1));
    vault.user_shares = 500_000;

    let mut vault_user_stats = fuel_stats(10_000); // total = 60k

    // 1) first crank
    let now = 1000;
    let vd_0_fuel_amount = vd_0
        .update_cumulative_fuel_amount(now, &mut vault, &vault_user_stats, &None)
        .unwrap()
        .0;
    assert_eq!(vd_0_fuel_amount, 12_000);
    assert_eq!(vd_0.fuel_amount, 12_000);

    let vd_1_fuel_amount = vd_1
        .update_cumulative_fuel_amount(now, &mut vault, &vault_user_stats, &None)
        .unwrap()
        .0;
    assert_eq!(vd_1_fuel_amount, 18_000);
    assert_eq!(vd_1.fuel_amount, 18_000);

    // 2) time advances, no new fuel
    let now = 2000;
    let vd_0_fuel_amount = vd_0
        .update_cumulative_fuel_amount(now, &mut vault, &vault_user_stats, &None)
        .unwrap()
        .0;
    assert_eq!(vd_0_fuel_amount, 12_000);
    assert_eq!(vd_0.fuel_amount, 12_000);

    let vd_1_fuel_amount = vd_1
        .update_cumulative_fuel_amount(now, &mut vault, &vault_user_stats, &None)
        .unwrap()
        .0;
    assert_eq!(vd_1_fuel_amount, 18_000);
    assert_eq!(vd_1.fuel_amount, 18_000);

    // 3) time advances, 10k more fuel
    let now = 3000;
    vault_user_stats.fuel_maker += 10_000; // total = 70k
    let vd_0_fuel_amount = vd_0
        .update_cumulative_fuel_amount(now, &mut vault, &vault_user_stats, &None)
        .unwrap()
        .0;
    assert_eq!(vd_0_fuel_amount, 14_000);
    assert_eq!(vd_0.fuel_amount, 14_000);

    let vd_1_fuel_amount = vd_1
        .update_cumulative_fuel_amount(now, &mut vault, &vault_user_stats, &None)
        .unwrap()
        .0;
    assert_eq!(vd_1_fuel_amount, 21_000);
    assert_eq!(vd_1.fuel_amount, 21_000);
    assert_eq!(vault.cumulative_fuel, 70_000);

    // 4) time advances, more fuel, vd_0 cranks twice, vd_1 cranks once
    let now = 4000;
    vault_user_stats.fuel_maker += 10_000; // total = 80k
    let vd_0_fuel_amount = vd_0
        .update_cumulative_fuel_amount(now, &mut vault, &vault_user_stats, &None)
        .unwrap()
        .0;
    assert_eq!(vd_0_fuel_amount, 16_000);
    assert_eq!(vd_0.fuel_amount, 16_000);
    assert_eq!(vd_1.fuel_amount, 21_000);
    assert_eq!(vault.cumulative_fuel, 80_000);

    let now = 5000;
    vault_user_stats.fuel_maker += 10_000; // total = 90k
    let vd_0_fuel_amount = vd_0
        .update_cumulative_fuel_amount(now, &mut vault, &vault_user_stats, &None)
        .unwrap()
        .0;
    assert_eq!(vd_0_fuel_amount, 18_000);
    assert_eq!(vd_1.fuel_amount, 21_000);
    assert_eq!(vault.cumulative_fuel, 90_000);

    let vd_1_fuel_amount = vd_1
        .update_cumulative_fuel_amount(now, &mut vault, &vault_user_stats, &None)
        .unwrap()
        .0;
    assert_eq!(vd_1_fuel_amount, 27_000);
    assert_eq!(vd_1.fuel_amount, 27_000);
    assert_eq!(vd_0.fuel_amount, 18_000);

    assert_eq!(vault.cumulative_fuel, 90_000);
}

#[test]
fn test_vault_depositor_shares_fuel_changing_user_shares() {
    let now = 1000;
    let mut vault = Vault {
        total_shares: 1_000_000,
        ..Vault::default()
    };
    // default is users only

    // initial state, users own 50% of vault, earns all fuel
    let vd_0 = &mut depositor_with_shares(now, 200_000, Some(now as u32 - 1));
    let vd_1 = &mut depositor_with_shares(now, 300_000, Some(now as u32 - 1));
    vault.user_shares = 500_000;

    let mut vault_user_stats = fuel_stats(10_000); // total = 60k

    // 1) first crank
    let now = 1000;
    let vd_0_fuel_amount = vd_0
        .update_cumulative_fuel_amount(now, &mut vault, &vault_user_stats, &None)
        .unwrap()
        .0;
    assert_eq!(vd_0_fuel_amount, 24_000);
    assert_eq!(vd_0.fuel_amount, 24_000);

    let vd_1_fuel_amount = vd_1
        .update_cumulative_fuel_amount(now, &mut vault, &vault_user_stats, &None)
        .unwrap()
        .0;
    assert_eq!(vd_1_fuel_amount, 36_000);
    assert_eq!(vd_1.fuel_amount, 36_000);
    assert_eq!(vault.cumulative_fuel, 60_000);

    // 2) time advances, and some new fuel earned, vd_0 doubles their deposit,
    let now = 2000;
    vault_user_stats.fuel_maker += 10_000; // total = 70k
    vd_0.vault_shares = 400_000;
    vault.user_shares = 700_000;
    let vd_0_fuel_amount = vd_0
        .update_cumulative_fuel_amount(now, &mut vault, &vault_user_stats, &None)
        .unwrap()
        .0;
    assert_eq!(vd_0_fuel_amount, 29_714); // +5,714.2857142857
    assert_eq!(vd_0.fuel_amount, 29_714);
    assert_eq!(vault.cumulative_fuel, 70_000);

    let vd_1_fuel_amount = vd_1
        .update_cumulative_fuel_amount(now, &mut vault, &vault_user_stats, &None)
        .unwrap()
        .0;
    assert_eq!(vd_1_fuel_amount, 40_285); // +4,285.7142857143
    assert_eq!(vd_1.fuel_amount, 40_285);
    assert_eq!(vault.cumulative_fuel, 70_000);
}

#[test]
fn test_vault_depositor_first_crank_in_vault_with_fuel() {
    let now = 1000;
    let mut vault = Vault {
        total_shares: 1_000_000,
        ..Vault::default()
    };
    // default is users only

    let vd_0 = &mut depositor_with_shares(now, 200_000, None);
    let vd_1 = &mut depositor_with_shares(now, 300_000, None);
    vault.user_shares = 500_000;

    let vault_user_stats = fuel_stats(10_000); // total = 60k

    // 1) first crank
    let now = 1000;
    let vd_0_fuel_amount = vd_0
        .update_cumulative_fuel_amount(now, &mut vault, &vault_user_stats, &None)
        .unwrap()
        .0;
    assert_eq!(vd_0_fuel_amount, 0);
    assert_eq!(vd_0.fuel_amount, 0);

    let vd_1_fuel_amount = vd_1
        .update_cumulative_fuel_amount(now, &mut vault, &vault_user_stats, &None)
        .unwrap()
        .0;
    assert_eq!(vd_1_fuel_amount, 0);
    assert_eq!(vd_1.fuel_amount, 0);
    assert_eq!(vault.cumulative_fuel, 60_000);
}

#[test]
fn test_fuel_distributes_with_larger_user_shares() {
    let test_cases: [u128; 4] = [
        10u128.pow(12),
        10u128.pow(15),
        10u128.pow(18),
        10u128.pow(21),
    ];
    let vd_share_of_vault_num: [u128; 7] = [
        1_u128, 100_u128, 1000u128, 2500u128, 5000u128, 7500u128, 10000u128,
    ];
    let vd_share_of_vault_denom = 10_000u128;
    let now = 1;
    let vault_fuel = 100_000;
    for user_shares in test_cases {
        for vd_share_of_vault in vd_share_of_vault_num {
            let mut vault = Vault {
                user_shares,
                ..Vault::default()
            };
            let user_stats = UserStats {
                fuel_deposits: vault_fuel,
                ..UserStats::default()
            };

            let vd = &mut VaultDepositor::new(
                Pubkey::default(),
                Pubkey::default(),
                Pubkey::default(),
                now,
            );
            vd.last_fuel_update_ts = 0;
            vd.vault_shares = user_shares * vd_share_of_vault / vd_share_of_vault_denom;

            vd.update_cumulative_fuel_amount(now, &mut vault, &user_stats, &None)
                .unwrap();

            let approx_fuel_amount_share = (vd.fuel_amount as f64) / (vault_fuel as f64);
            let expected_fuel_amount_share =
                (vd_share_of_vault as f64) / (vd_share_of_vault_denom as f64);
            assert_eq_within(
                vd.fuel_amount,
                (vault_fuel as u128) * vd_share_of_vault / vd_share_of_vault_denom,
                1000,
                format!(
                    "vd.fuel_amount failed with user_shares: {}, vd_share_of_vault: {}/{}",
                    user_shares, vd_share_of_vault, vd_share_of_vault_denom
                ),
            );
            assert_eq_within(
                (approx_fuel_amount_share * 1e6) as u128,
                (expected_fuel_amount_share * 1e6) as u128,
                1000,
                format!("share of the fuel for user_shares: {}", user_shares),
            );
        }
    }
}
