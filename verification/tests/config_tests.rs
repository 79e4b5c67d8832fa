// The global configuration: initialization and the two admin settings.

use wzn_card_game::config::GlobalConfig;
use wzn_card_game::errors::ErrorCode;
use wzn_card_game::identity::AccountId;

#[test]
fn initialization_sets_the_defaults() {
    let admin = AccountId::new(1);
    let config = GlobalConfig::initialize(admin);
    assert_eq!(config.admin, admin);
    assert_eq!(config.access_cost, 500_000_000);
    assert_eq!(config.fee_mode, 1);
    assert_eq!(config.next_proposal_id, 1);
}

#[test]
fn access_cost_changes_stay_in_range() {
    let admin = AccountId::new(1);
    let mut config = GlobalConfig::initialize(admin);
    assert_eq!(
        config.change_access_cost(AccountId::new(9), 600_000_000),
        Err(ErrorCode::Unauthorized)
    );
    assert_eq!(
        config.change_access_cost(admin, 499_999_999),
        Err(ErrorCode::InvalidAccessCost)
    );
    assert_eq!(
        config.change_access_cost(admin, 1_000_000_001),
        Err(ErrorCode::InvalidAccessCost)
    );
    assert_eq!(config.access_cost, 500_000_000);
    assert_eq!(config.change_access_cost(admin, 1_000_000_000), Ok(()));
    assert_eq!(config.access_cost, 1_000_000_000);
}

#[test]
fn fee_mode_changes_are_binary_and_admin_only() {
    let admin = AccountId::new(1);
    let mut config = GlobalConfig::initialize(admin);
    assert_eq!(config.change_fee_mode(AccountId::new(9), 0), Err(ErrorCode::Unauthorized));
    assert_eq!(config.change_fee_mode(admin, 2), Err(ErrorCode::InvalidFeeMode));
    assert_eq!(config.fee_mode, 1);
    assert_eq!(config.change_fee_mode(admin, 0), Ok(()));
    assert_eq!(config.fee_mode, 0);
    assert_eq!(config.change_fee_mode(admin, 1), Ok(()));
    assert_eq!(config.fee_mode, 1);
}
