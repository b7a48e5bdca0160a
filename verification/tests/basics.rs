//! Permissions, status policies, budgets and outcomes.

use hotki::permissions::{PermissionState, PermissionsStatus};
use hotki::smoketest::config::RunBudget;
use hotki::status::{policy, Level, StatusKind, K_AX_ERROR_CANNOT_COMPLETE, K_CG_ERROR_FAILURE};

#[test]
fn ax_observer_policy_matches_expected_level() {
    let policy = policy(StatusKind::AxObserverAttach, K_AX_ERROR_CANNOT_COMPLETE)
        .expect("policy exists for AX cannot-complete");
    assert_eq!(policy.level, Level::DEBUG);
}

#[test]
fn cgs_order_window_failure_is_demoted_to_trace() {
    let policy = policy(StatusKind::CgsOrderWindow, K_CG_ERROR_FAILURE)
        .expect("policy exists for CGS failure");
    assert_eq!(policy.level, Level::TRACE);
}

#[test]
fn permission_state_maps_bool_to_stable_status() {
    assert_eq!(PermissionState::from(true), PermissionState::Granted);
    assert_eq!(PermissionState::from(false), PermissionState::Denied);
    assert!(PermissionState::Granted.is_granted());
    assert!(!PermissionState::Denied.is_granted());
    assert!(!PermissionState::Unknown.is_granted());
}

#[test]
fn permissions_status_reports_each_capability() {
    let status = PermissionsStatus {
        accessibility: PermissionState::Granted,
        input_monitoring: PermissionState::Denied,
        screen_recording: PermissionState::Unknown,
    };

    assert!(status.accessibility_ok());
    assert!(!status.input_ok());
    assert!(!status.screen_recording_ok());
}

#[test]
fn exhausted_budget_has_no_remaining_milliseconds() {
    let budget = RunBudget::new(1, 0);
    let now = 1_000_000;

    assert_eq!(budget.remaining_ms(now), None);
    assert!(budget.is_expired(now));
}
