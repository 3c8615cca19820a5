use sirin::health::{AidingHealth, AidingStatus, UpdateDecision};

#[test]
fn aiding_requires_good_streak_and_drops_after_bad_streak() {
    let mut health = AidingHealth::default();
    health.record(true);
    health.record(true);
    assert_eq!(health.status, AidingStatus::Suspect);
    health.record(true);
    assert_eq!(health.status, AidingStatus::Active);
    health.record(false);
    health.record(false);
    assert_eq!(health.status, AidingStatus::Suspect);
    health.record(false);
    assert_eq!(health.status, AidingStatus::Inactive);
}

#[test]
fn totals_count_every_update() {
    let mut health = AidingHealth::default();
    for _ in 0..5 {
        health.record(true);
    }
    health.record(false);
    assert_eq!(health.total_accepted, 5);
    assert_eq!(health.total_rejected, 1);
    assert_eq!(health.status, AidingStatus::Suspect);
}

#[test]
fn a_single_accept_breaks_the_bad_streak() {
    let mut health = AidingHealth::default();
    health.record(false);
    health.record(false);
    health.record(true);
    health.record(false);
    health.record(false);
    assert_eq!(health.status, AidingStatus::Suspect);
    health.record(false);
    assert_eq!(health.status, AidingStatus::Inactive);
}

#[test]
fn reset_forgets_the_history() {
    let mut health = AidingHealth::default();
    for _ in 0..4 {
        health.record(true);
    }
    health.reset();
    assert_eq!(health.status, AidingStatus::Inactive);
    assert_eq!(health.total_accepted, 0);
    health.record(true);
    assert_eq!(health.status, AidingStatus::Suspect);
}

#[test]
fn fault_decisions() {
    assert!(AidingHealth::last_decision_is_fault(UpdateDecision::NonFiniteInput));
    assert!(AidingHealth::last_decision_is_fault(UpdateDecision::InnovationNotPositiveDefinite));
    assert!(AidingHealth::last_decision_is_fault(UpdateDecision::NonFiniteResult));
    assert!(!AidingHealth::last_decision_is_fault(UpdateDecision::Accepted));
    assert!(!AidingHealth::last_decision_is_fault(UpdateDecision::InnovationRejected));
    assert!(!AidingHealth::last_decision_is_fault(UpdateDecision::MeasurementTooOld));
}
