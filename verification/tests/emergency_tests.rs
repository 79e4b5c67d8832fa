// The emergency-unlock protocol: time lock, cool-down, signatures, release.

use wzn_card_game::emergency::EmergencyUnlockCoordinator;
use wzn_card_game::errors::ErrorCode;
use wzn_card_game::identity::AccountId;

const DAY: i64 = 24 * 60 * 60;
const TWO_YEARS: i64 = 2 * 365 * DAY;
const RICH: u64 = 10_000_000_000;

fn admin() -> AccountId {
    AccountId::new(1)
}

/// A coordinator initialized at time 0, so the time lock expires at
/// `TWO_YEARS`.
fn setup() -> EmergencyUnlockCoordinator {
    EmergencyUnlockCoordinator::initialize_emergency_unlock(admin(), 0)
}

/// Initiates request 1 at `TWO_YEARS` and collects `extra` more signatures.
fn setup_signed(extra: u64) -> EmergencyUnlockCoordinator {
    let mut c = setup();
    assert_eq!(
        c.initiate_emergency_unlock(AccountId::new(2), 20, "drained".to_string(), RICH, TWO_YEARS),
        Ok(())
    );
    for k in 0..extra {
        assert_eq!(
            c.sign_emergency_unlock(1, AccountId::new(10 + k), RICH, TWO_YEARS + 1),
            Ok(())
        );
    }
    c
}

#[test]
fn initiation_waits_for_the_time_lock() {
    let mut c = setup();
    assert_eq!(
        c.initiate_emergency_unlock(AccountId::new(2), 20, String::new(), RICH, TWO_YEARS - 1),
        Err(ErrorCode::TimeLockNotExpired)
    );
    assert_eq!(
        c.initiate_emergency_unlock(AccountId::new(2), 20, String::new(), RICH, TWO_YEARS),
        Ok(())
    );
}

#[test]
fn initiation_validates_percentage_and_balance() {
    let mut c = setup();
    assert_eq!(
        c.initiate_emergency_unlock(AccountId::new(2), 14, String::new(), RICH, TWO_YEARS),
        Err(ErrorCode::InvalidUnlockPercentage)
    );
    assert_eq!(
        c.initiate_emergency_unlock(AccountId::new(2), 36, String::new(), RICH, TWO_YEARS),
        Err(ErrorCode::InvalidUnlockPercentage)
    );
    assert_eq!(
        c.initiate_emergency_unlock(AccountId::new(2), 20, String::new(), RICH - 1, TWO_YEARS),
        Err(ErrorCode::InsufficientWznForEmergency)
    );
    assert_eq!(
        c.initiate_emergency_unlock(AccountId::new(2), 15, String::new(), RICH, TWO_YEARS),
        Ok(())
    );
}

#[test]
fn initiator_is_the_first_signer() {
    let c = setup_signed(0);
    let req = &c.requests[0];
    assert_eq!(req.id, 1);
    assert_eq!(req.signatures_count, 1);
    assert_eq!(req.signature_deadline, TWO_YEARS + 7 * DAY);
    assert_eq!(c.signatures.len(), 1);
    assert_eq!(c.signatures[0].signer, AccountId::new(2));
    assert_eq!(c.signatures[0].unlock_id, 1);
    assert_eq!(c.signatures[0].wzn_balance, RICH);
    // The initiator cannot sign their own request a second time.
    let mut c = c;
    assert_eq!(
        c.sign_emergency_unlock(1, AccountId::new(2), RICH, TWO_YEARS + 1),
        Err(ErrorCode::AlreadySigned)
    );
}

#[test]
fn a_pending_request_blocks_another_initiation() {
    let mut c = setup_signed(0);
    assert_eq!(
        c.initiate_emergency_unlock(AccountId::new(3), 20, String::new(), RICH, TWO_YEARS + 1),
        Err(ErrorCode::RecordAlreadyExists)
    );
}

#[test]
fn signing_guards_reject_in_order() {
    let mut c = setup_signed(0);
    assert_eq!(
        c.sign_emergency_unlock(9, AccountId::new(10), RICH, TWO_YEARS + 1),
        Err(ErrorCode::RecordNotFound)
    );
    assert_eq!(
        c.sign_emergency_unlock(1, AccountId::new(10), RICH, TWO_YEARS + 7 * DAY + 1),
        Err(ErrorCode::SignaturePeriodClosed)
    );
    assert_eq!(
        c.sign_emergency_unlock(1, AccountId::new(10), RICH - 1, TWO_YEARS + 1),
        Err(ErrorCode::InsufficientWznForEmergency)
    );
    assert_eq!(c.sign_emergency_unlock(1, AccountId::new(10), RICH, TWO_YEARS + 1), Ok(()));
    assert_eq!(
        c.sign_emergency_unlock(1, AccountId::new(10), RICH, TWO_YEARS + 2),
        Err(ErrorCode::AlreadySigned)
    );
    assert_eq!(c.requests[0].signatures_count, 2);
    assert_eq!(c.signatures.len(), 2);
}

#[test]
fn four_signatures_never_release_even_after_the_window() {
    let mut c = setup_signed(3);
    assert_eq!(c.requests[0].signatures_count, 4);
    // Inside the window.
    assert_eq!(
        c.execute_emergency_unlock(1, 1_000_000, TWO_YEARS + 1 * DAY),
        Err(ErrorCode::InsufficientSignatures)
    );
    // Long after the window has passed, the same refusal.
    assert_eq!(
        c.execute_emergency_unlock(1, 1_000_000, TWO_YEARS + 90 * DAY),
        Err(ErrorCode::InsufficientSignatures)
    );
    assert!(!c.requests[0].executed);
}

#[test]
fn fifth_signature_releases_immediately() {
    let mut c = setup_signed(4);
    assert_eq!(c.requests[0].signatures_count, 5);
    // Executable right away, however little of the window has passed.
    let t = TWO_YEARS + 2;
    assert_eq!(c.execute_emergency_unlock(1, 1_000_000, t), Ok(200_000));
    assert!(c.requests[0].executed);
    assert_eq!(c.config.last_unlock_time, t);
    assert_eq!(c.config.current_unlock_id, 2);
}

#[test]
fn quorum_reached_still_releases_after_the_window() {
    let mut c = setup_signed(4);
    let t = TWO_YEARS + 60 * DAY;
    assert_eq!(c.execute_emergency_unlock(1, 1_000, t), Ok(200));
}

#[test]
fn release_amount_rounds_down() {
    // 35 percent of 999 is 349.65, paid out rounded down.
    let mut c = setup();
    assert_eq!(
        c.initiate_emergency_unlock(AccountId::new(2), 35, String::new(), RICH, TWO_YEARS),
        Ok(())
    );
    for k in 0..4u64 {
        assert_eq!(
            c.sign_emergency_unlock(1, AccountId::new(10 + k), RICH, TWO_YEARS + 1),
            Ok(())
        );
    }
    assert_eq!(c.execute_emergency_unlock(1, 999, TWO_YEARS + 2), Ok(349));
}

#[test]
fn release_is_never_executed_twice() {
    let mut c = setup_signed(4);
    assert_eq!(c.execute_emergency_unlock(1, 1_000_000, TWO_YEARS + 2), Ok(200_000));
    assert_eq!(
        c.execute_emergency_unlock(1, 1_000_000, TWO_YEARS + 3),
        Err(ErrorCode::UnlockAlreadyExecuted)
    );
    assert_eq!(
        c.execute_emergency_unlock(1, 1_000_000, TWO_YEARS + 40 * DAY),
        Err(ErrorCode::UnlockAlreadyExecuted)
    );
}

#[test]
fn cooldown_blocks_then_admits_at_the_boundary() {
    let mut c = setup_signed(4);
    let t1 = TWO_YEARS + 2;
    assert_eq!(c.execute_emergency_unlock(1, 1_000_000, t1), Ok(200_000));
    // A day short of the cool-down: refused.
    assert_eq!(
        c.initiate_emergency_unlock(AccountId::new(3), 20, String::new(), RICH, t1 + 29 * DAY),
        Err(ErrorCode::CooldownActive)
    );
    assert_eq!(
        c.initiate_emergency_unlock(AccountId::new(3), 20, String::new(), RICH, t1 + 30 * DAY - 1),
        Err(ErrorCode::CooldownActive)
    );
    // Exactly at the boundary: admitted.
    assert_eq!(
        c.initiate_emergency_unlock(AccountId::new(3), 20, String::new(), RICH, t1 + 30 * DAY),
        Ok(())
    );
    assert_eq!(c.requests[1].id, 2);
}

#[test]
fn cancel_is_for_initiator_or_admin_only() {
    let mut c = setup_signed(0);
    assert_eq!(
        c.cancel_emergency_unlock(1, AccountId::new(9)),
        Err(ErrorCode::UnauthorizedCancel)
    );
    assert_eq!(c.cancel_emergency_unlock(9, admin()), Err(ErrorCode::RecordNotFound));
    assert_eq!(c.cancel_emergency_unlock(1, admin()), Ok(()));
    assert!(c.requests[0].cancelled);
    assert_eq!(
        c.cancel_emergency_unlock(1, AccountId::new(2)),
        Err(ErrorCode::UnlockAlreadyCancelled)
    );
    // A cancelled request can neither be signed nor executed.
    assert_eq!(
        c.sign_emergency_unlock(1, AccountId::new(10), RICH, TWO_YEARS + 1),
        Err(ErrorCode::UnlockCancelled)
    );
    assert_eq!(
        c.execute_emergency_unlock(1, 1_000_000, TWO_YEARS + 2),
        Err(ErrorCode::UnlockCancelled)
    );
}

#[test]
fn limits_report_the_running_clocks() {
    let c = setup();
    let s = c.check_emergency_unlock_limits(TWO_YEARS - 1);
    assert!(!s.time_lock_expired);
    assert!(s.cooldown_expired);
    assert_eq!(s.time_lock_expires_at, TWO_YEARS);
    assert_eq!(s.cooldown_expires_at, 0);
    assert_eq!(s.min_percentage, 15);
    assert_eq!(s.max_percentage, 35);
    assert_eq!(s.required_signatures, 5);
    assert_eq!(s.min_wzn_balance, RICH);

    let mut c = setup_signed(4);
    let t1 = TWO_YEARS + 2;
    assert_eq!(c.execute_emergency_unlock(1, 1_000_000, t1), Ok(200_000));
    let s2 = c.check_emergency_unlock_limits(t1 + 1);
    assert!(s2.time_lock_expired);
    assert!(!s2.cooldown_expired);
    assert_eq!(s2.cooldown_expires_at, t1 + 30 * DAY);
}
