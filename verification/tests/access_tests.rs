// The access-pass registry: purchase windows, stacking, and eligibility.

use wzn_card_game::access::AccessPassRegistry;
use wzn_card_game::config::GlobalConfig;
use wzn_card_game::errors::ErrorCode;
use wzn_card_game::identity::AccountId;
use wzn_card_game::proposals::check_voting_eligibility;

const DAY: i64 = 24 * 60 * 60;

#[test]
fn burn_grants_thirty_day_window() {
    let mut reg = AccessPassRegistry::new();
    let user = AccountId::new(7);
    assert_eq!(reg.burn_for_pass(user, 500_000_000, 1_000), Ok(()));
    let pass = reg.passes[0];
    assert_eq!(pass.burn_timestamp, 1_000);
    assert_eq!(pass.access_expires, 1_000 + 30 * DAY);
    assert_eq!(pass.amount_burned, 500_000_000);
    assert!(reg.check_access(user, 1_000 + 30 * DAY - 1));
    assert!(!reg.check_access(user, 1_000 + 30 * DAY));
}

#[test]
fn burn_amount_bounds_are_inclusive() {
    let mut reg = AccessPassRegistry::new();
    assert_eq!(
        reg.burn_for_pass(AccountId::new(1), 499_999_999, 0),
        Err(ErrorCode::InvalidBurnAmount)
    );
    assert_eq!(
        reg.burn_for_pass(AccountId::new(1), 1_000_000_001, 0),
        Err(ErrorCode::InvalidBurnAmount)
    );
    assert_eq!(reg.burn_for_pass(AccountId::new(1), 500_000_000, 0), Ok(()));
    assert_eq!(reg.burn_for_pass(AccountId::new(2), 1_000_000_000, 0), Ok(()));
}

#[test]
fn second_burn_before_expiry_is_still_active() {
    let mut reg = AccessPassRegistry::new();
    let user = AccountId::new(7);
    assert_eq!(reg.burn_for_pass(user, 500_000_000, 1_000), Ok(()));
    assert_eq!(
        reg.burn_for_pass(user, 500_000_000, 1_000 + 30 * DAY - 1),
        Err(ErrorCode::AccessStillActive)
    );
    // The failed attempt changed nothing.
    assert_eq!(reg.passes.len(), 1);
    assert_eq!(reg.passes[0].burn_timestamp, 1_000);
}

#[test]
fn burn_after_expiry_refreshes_the_pass() {
    let mut reg = AccessPassRegistry::new();
    let user = AccountId::new(7);
    assert_eq!(reg.burn_for_pass(user, 500_000_000, 1_000), Ok(()));
    let expiry = 1_000 + 30 * DAY;
    assert_eq!(reg.burn_for_pass(user, 600_000_000, expiry), Ok(()));
    assert_eq!(reg.passes.len(), 1);
    assert_eq!(reg.passes[0].burn_timestamp, expiry);
    assert_eq!(reg.passes[0].access_expires, expiry + 30 * DAY);
    assert_eq!(reg.passes[0].amount_burned, 600_000_000);
}

#[test]
fn unknown_user_has_no_access() {
    let reg = AccessPassRegistry::new();
    assert!(!reg.check_access(AccountId::new(9), 0));
}

#[test]
fn sponsored_burn_requires_sponsor_mode() {
    let admin = AccountId::new(1);
    let mut config = GlobalConfig::initialize(admin);
    let mut reg = AccessPassRegistry::new();
    let user = AccountId::new(7);

    // A fresh configuration starts in sponsor-pays mode.
    assert_eq!(
        reg.burn_for_pass_with_fee_payer(&config, user, 500_000_000, 1_000),
        Ok(())
    );

    assert_eq!(config.change_fee_mode(admin, 0), Ok(()));
    assert_eq!(
        reg.burn_for_pass_with_fee_payer(&config, AccountId::new(8), 500_000_000, 1_000),
        Err(ErrorCode::WrongFeeMode)
    );
}

#[test]
fn eligibility_reflects_access_and_balance() {
    let mut reg = AccessPassRegistry::new();
    let user = AccountId::new(7);
    assert_eq!(reg.burn_for_pass(user, 500_000_000, 0), Ok(()));

    let e = check_voting_eligibility(&reg, user, 5_000_000_000, 100);
    assert!(e.has_active_access);
    assert_eq!(e.wzn_balance, 5_000_000_000);
    assert!(e.can_vote);
    assert!(!e.can_create_proposal);
    assert_eq!(e.voting_power, 5_000_000_000);

    let e2 = check_voting_eligibility(&reg, user, 10_000_000_000, 100);
    assert!(e2.can_create_proposal);

    // Without an active pass nothing is permitted, whatever the balance.
    let e3 = check_voting_eligibility(&reg, user, 10_000_000_000, 40 * DAY);
    assert!(!e3.has_active_access);
    assert!(!e3.can_vote);
    assert!(!e3.can_create_proposal);

    let e4 = check_voting_eligibility(&reg, user, 999_999_999, 100);
    assert!(!e4.can_vote);
}
