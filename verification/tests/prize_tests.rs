// The prize ledger: batch submission, execution, cancellation, seasons.

use wzn_card_game::config::GlobalConfig;
use wzn_card_game::errors::ErrorCode;
use wzn_card_game::identity::AccountId;
use wzn_card_game::prizes::PrizeLedger;
use wzn_card_game::stats::get_platform_stats;

fn admin() -> AccountId {
    AccountId::new(1)
}

fn setup() -> PrizeLedger {
    PrizeLedger::initialize_prize_distribution(admin(), 50)
}

fn two_winners() -> (Vec<AccountId>, Vec<u64>) {
    (vec![AccountId::new(10), AccountId::new(11)], vec![100, 200])
}

#[test]
fn submit_needs_the_vault_to_cover_the_sum() {
    let mut ledger = setup();
    let (recipients, amounts) = two_winners();
    // Amounts 100 and 200 against a vault of 250: refused.
    assert_eq!(
        ledger.submit_rewards(admin(), recipients, amounts, "season one".to_string(), 250, 60),
        Err(ErrorCode::InsufficientVaultBalance)
    );
    assert!(ledger.distributions.is_empty());
    assert_eq!(ledger.config.distribution_count, 0);

    // The same batch against a vault of 300: recorded.
    let (recipients, amounts) = two_winners();
    assert_eq!(
        ledger.submit_rewards(admin(), recipients, amounts, "season one".to_string(), 300, 60),
        Ok(())
    );
    let d = &ledger.distributions[0];
    assert_eq!(d.id, 1);
    assert_eq!(d.total_amount, 300);
    assert_eq!(d.recipients_count, 2);
    assert_eq!(d.season, 1);
    assert!(!d.executed);
    assert!(!d.cancelled);
    assert_eq!(ledger.config.distribution_count, 1);
}

#[test]
fn execute_pays_exactly_the_recorded_total() {
    let mut ledger = setup();
    let (recipients, amounts) = two_winners();
    assert_eq!(
        ledger.submit_rewards(admin(), recipients, amounts, String::new(), 300, 60),
        Ok(())
    );
    assert_eq!(ledger.execute_prize_distribution(1), Ok(300));
    assert!(ledger.distributions[0].executed);
    assert_eq!(ledger.config.total_distributed, 300);
}

#[test]
fn execute_twice_is_an_error_and_never_pays_twice() {
    let mut ledger = setup();
    let (recipients, amounts) = two_winners();
    assert_eq!(
        ledger.submit_rewards(admin(), recipients, amounts, String::new(), 300, 60),
        Ok(())
    );
    assert_eq!(ledger.execute_prize_distribution(1), Ok(300));
    assert_eq!(
        ledger.execute_prize_distribution(1),
        Err(ErrorCode::DistributionAlreadyExecuted)
    );
    assert_eq!(
        ledger.execute_prize_distribution(1),
        Err(ErrorCode::DistributionAlreadyExecuted)
    );
    assert_eq!(ledger.config.total_distributed, 300);
}

#[test]
fn submit_validates_lists_and_caller() {
    let mut ledger = setup();
    assert_eq!(
        ledger.submit_rewards(
            AccountId::new(9),
            vec![AccountId::new(10)],
            vec![100],
            String::new(),
            1_000,
            60
        ),
        Err(ErrorCode::Unauthorized)
    );
    assert_eq!(
        ledger.submit_rewards(
            admin(),
            vec![AccountId::new(10)],
            vec![100, 200],
            String::new(),
            1_000,
            60
        ),
        Err(ErrorCode::MismatchedRecipientsAmounts)
    );
    let many: Vec<AccountId> = (0..51u64).map(AccountId::new).collect();
    let sums: Vec<u64> = vec![1; 51];
    assert_eq!(
        ledger.submit_rewards(admin(), many, sums, String::new(), 1_000, 60),
        Err(ErrorCode::TooManyRecipients)
    );
    assert!(ledger.distributions.is_empty());
}

#[test]
fn a_full_batch_of_fifty_is_accepted() {
    let mut ledger = setup();
    let many: Vec<AccountId> = (0..50u64).map(AccountId::new).collect();
    let sums: Vec<u64> = vec![2; 50];
    assert_eq!(ledger.submit_rewards(admin(), many, sums, String::new(), 100, 60), Ok(()));
    assert_eq!(ledger.distributions[0].total_amount, 100);
    assert_eq!(ledger.distributions[0].recipients_count, 50);
}

#[test]
fn an_empty_batch_costs_nothing() {
    let mut ledger = setup();
    assert_eq!(
        ledger.submit_rewards(admin(), Vec::new(), Vec::new(), String::new(), 0, 60),
        Ok(())
    );
    assert_eq!(ledger.distributions[0].total_amount, 0);
    assert_eq!(ledger.execute_prize_distribution(1), Ok(0));
    assert_eq!(ledger.config.total_distributed, 0);
}

#[test]
fn cancel_blocks_a_later_execution() {
    let mut ledger = setup();
    let (recipients, amounts) = two_winners();
    assert_eq!(
        ledger.submit_rewards(admin(), recipients, amounts, String::new(), 300, 60),
        Ok(())
    );
    assert_eq!(
        ledger.cancel_prize_distribution(AccountId::new(9), 1),
        Err(ErrorCode::Unauthorized)
    );
    assert_eq!(ledger.cancel_prize_distribution(admin(), 1), Ok(()));
    assert!(ledger.distributions[0].cancelled);
    assert_eq!(
        ledger.execute_prize_distribution(1),
        Err(ErrorCode::DistributionCancelled)
    );
    assert_eq!(
        ledger.cancel_prize_distribution(admin(), 1),
        Err(ErrorCode::DistributionCancelled)
    );
    assert_eq!(ledger.config.total_distributed, 0);
}

#[test]
fn executed_batches_cannot_be_cancelled() {
    let mut ledger = setup();
    let (recipients, amounts) = two_winners();
    assert_eq!(
        ledger.submit_rewards(admin(), recipients, amounts, String::new(), 300, 60),
        Ok(())
    );
    assert_eq!(ledger.execute_prize_distribution(1), Ok(300));
    assert_eq!(
        ledger.cancel_prize_distribution(admin(), 1),
        Err(ErrorCode::DistributionAlreadyExecuted)
    );
}

#[test]
fn unknown_distribution_ids_are_refused() {
    let mut ledger = setup();
    assert_eq!(ledger.execute_prize_distribution(1), Err(ErrorCode::RecordNotFound));
    assert_eq!(ledger.execute_prize_distribution(0), Err(ErrorCode::RecordNotFound));
    assert_eq!(
        ledger.cancel_prize_distribution(admin(), 1),
        Err(ErrorCode::RecordNotFound)
    );
}

#[test]
fn new_seasons_advance_without_touching_history() {
    let mut ledger = setup();
    let (recipients, amounts) = two_winners();
    assert_eq!(
        ledger.submit_rewards(admin(), recipients, amounts, String::new(), 300, 60),
        Ok(())
    );
    assert_eq!(
        ledger.start_new_season(AccountId::new(9), 1_000),
        Err(ErrorCode::Unauthorized)
    );
    assert_eq!(ledger.start_new_season(admin(), 1_000), Ok(()));
    assert_eq!(ledger.config.current_season, 2);
    assert_eq!(ledger.config.season_start_time, 1_000);
    // The old batch keeps the season it was submitted in; new ones take
    // the new season.
    assert_eq!(ledger.distributions[0].season, 1);
    let (recipients, amounts) = two_winners();
    assert_eq!(
        ledger.submit_rewards(admin(), recipients, amounts, String::new(), 300, 1_100),
        Ok(())
    );
    assert_eq!(ledger.distributions[1].id, 2);
    assert_eq!(ledger.distributions[1].season, 2);
}

#[test]
fn platform_stats_snapshot_the_engine() {
    let config = GlobalConfig::initialize(admin());
    let mut ledger = setup();
    let (recipients, amounts) = two_winners();
    assert_eq!(
        ledger.submit_rewards(admin(), recipients, amounts, String::new(), 300, 60),
        Ok(())
    );
    assert_eq!(ledger.execute_prize_distribution(1), Ok(300));
    let stats = get_platform_stats(&config, &ledger, 5_000);
    assert_eq!(stats.total_burned, 5_000);
    assert_eq!(stats.total_distributed, 300);
    assert_eq!(stats.current_access_cost, 500_000_000);
    assert_eq!(stats.current_fee_mode, 1);
    assert_eq!(stats.current_season, 1);
    assert_eq!(stats.total_proposals, 0);
    assert_eq!(stats.total_distributions, 1);
}
