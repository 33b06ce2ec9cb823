use free_duolingo_plus::engine::{ProvisioningPlan, UnitPhase};
use free_duolingo_plus::errors::{TransportError, UnitOutcome};
use free_duolingo_plus::quota::InviteQuota;

#[test]
fn zero_requested_is_a_noop() {
    let plan = ProvisioningPlan::new(0, 4, true);
    assert!(!plan.can_dispatch());
    assert!(!plan.wants_quota_check());
    assert!(plan.is_finished());
    assert_eq!(plan.completed, 0);
}

#[test]
fn quota_clamp_after_first_success() {
    // Three units requested; the first succeeds and the quota then reports
    // a single remaining reward unit, so at most one more unit may be
    // dispatched.
    let mut plan = ProvisioningPlan::new(3, 1, true);
    assert!(plan.can_dispatch());
    plan.dispatch();
    plan.record(UnitOutcome::Done);
    assert!(plan.wants_quota_check());
    plan.apply_quota(InviteQuota { weeks: 1 });
    assert_eq!(plan.remaining, 1);
    assert!(!plan.wants_quota_check());

    plan.dispatch();
    plan.record(UnitOutcome::Done);
    assert!(plan.is_finished());
    assert_eq!(plan.completed, 2);
}

#[test]
fn quota_covering_the_request_changes_nothing() {
    let mut plan = ProvisioningPlan::new(3, 2, true);
    plan.dispatch();
    plan.record(UnitOutcome::Done);
    plan.apply_quota(InviteQuota { weeks: 24 });
    assert_eq!(plan.remaining, 2);
}

#[test]
fn quota_clamp_spares_units_in_flight() {
    // Two units are in flight when a quota of one arrives: they are not
    // taken back, only the undispatched work is discarded.
    let mut plan = ProvisioningPlan::new(5, 3, true);
    plan.dispatch();
    plan.record(UnitOutcome::Done);
    plan.dispatch();
    plan.dispatch();
    assert_eq!(plan.in_flight, 2);
    plan.apply_quota(InviteQuota { weeks: 1 });
    assert_eq!(plan.remaining, 0);
    assert_eq!(plan.in_flight, 2);
}

#[test]
fn full_batch_without_clamp_completes_everything() {
    let mut plan = ProvisioningPlan::new(4, 2, true);
    let mut first = true;
    while !plan.is_finished() {
        if plan.can_dispatch() {
            plan.dispatch();
            plan.record(UnitOutcome::Done);
        }
        if first && plan.wants_quota_check() {
            plan.apply_quota(InviteQuota { weeks: 24 });
            first = false;
        }
    }
    assert_eq!(plan.completed, 4);
    assert_eq!(plan.failed_create, 0);
    assert_eq!(plan.orphaned, 0);
}

#[test]
fn resolved_quota_clamps_through_resolution_outcome() {
    let mut plan = ProvisioningPlan::new(3, 1, true);
    plan.dispatch();
    plan.record(UnitOutcome::Done);
    let reported = plan.note_quota_resolution(Ok(InviteQuota { weeks: 1 }));
    assert_eq!(reported, None);
    assert_eq!(plan.remaining, 1);
    assert!(!plan.wants_quota_check());
}

#[test]
fn failed_quota_resolution_is_reported_and_keeps_the_request() {
    let mut plan = ProvisioningPlan::new(3, 1, true);
    plan.dispatch();
    plan.record(UnitOutcome::Done);
    let reported = plan.note_quota_resolution(Err(TransportError::MissingRedirect));
    assert_eq!(reported, Some(TransportError::MissingRedirect));
    assert_eq!(plan.remaining, 2);
    // The check ran once and never runs again.
    assert!(!plan.wants_quota_check());
    assert_eq!(plan.applied_quota, Some(3));
}

#[test]
fn fail_fast_stops_dispatch() {
    let mut plan = ProvisioningPlan::new(5, 1, true);
    plan.dispatch();
    plan.record(UnitOutcome::CreateFailed);
    assert_eq!(plan.failed_create, 1);
    assert_eq!(plan.remaining, 0);
    assert!(!plan.can_dispatch());
    assert!(plan.is_finished());
}

#[test]
fn continue_on_error_keeps_dispatching() {
    let mut plan = ProvisioningPlan::new(3, 1, false);
    plan.dispatch();
    plan.record(UnitOutcome::ConfigureFailed);
    assert_eq!(plan.orphaned, 1);
    assert_eq!(plan.remaining, 2);
    assert!(plan.can_dispatch());
}

#[test]
fn worker_bound_limits_in_flight_units() {
    let mut plan = ProvisioningPlan::new(5, 2, true);
    plan.dispatch();
    plan.dispatch();
    assert!(!plan.can_dispatch());
    plan.record(UnitOutcome::Done);
    assert!(plan.can_dispatch());
}

#[test]
fn quota_check_needs_a_first_success() {
    let mut plan = ProvisioningPlan::new(3, 2, false);
    assert!(!plan.wants_quota_check());
    plan.dispatch();
    plan.record(UnitOutcome::CreateFailed);
    assert!(!plan.wants_quota_check());
    plan.dispatch();
    plan.record(UnitOutcome::Done);
    assert!(plan.wants_quota_check());
}

#[test]
fn unit_phase_success_path() {
    let phase = UnitPhase::Pending.begin().created(true).configured(true);
    assert_eq!(phase, UnitPhase::Done);
    assert_eq!(phase.outcome(), UnitOutcome::Done);
}

#[test]
fn unit_phase_failure_paths() {
    let failed = UnitPhase::Pending.begin().created(false);
    assert_eq!(failed, UnitPhase::CreateFailed);
    assert_eq!(failed.outcome(), UnitOutcome::CreateFailed);

    let orphaned = UnitPhase::Pending.begin().created(true).configured(false);
    assert_eq!(orphaned, UnitPhase::ConfigureFailed);
    assert_eq!(orphaned.outcome(), UnitOutcome::ConfigureFailed);
}
