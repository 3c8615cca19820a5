use sirin::estimator::{navigation_validity, NavigationValidity};
use sirin::gating::{check_measurement_time, imu_step, saturation_flags, ImuStamp, ImuStep};
use sirin::health::{AidingHealth, AidingStatus, EstimatorHealth, PropagationError, UpdateDecision};
use sirin::history::SnapshotHistory;
use sirin::runtime::{record_imu_event, record_measurement_event, EstimatorDiagnostics, MeasurementSource};

#[test]
fn measurement_without_estimator_time_is_rejected() {
    assert_eq!(
        check_measurement_time(None, 10, 5, 100),
        Some(UpdateDecision::EstimatorTimeUnavailable)
    );
}

#[test]
fn measurement_time_window() {
    // Up to 5 us in the future and 100 us in the past is fine.
    assert_eq!(check_measurement_time(Some(1_000), 1_005, 5, 100), None);
    assert_eq!(
        check_measurement_time(Some(1_000), 1_006, 5, 100),
        Some(UpdateDecision::MeasurementFromFuture)
    );
    assert_eq!(check_measurement_time(Some(1_000), 900, 5, 100), None);
    assert_eq!(
        check_measurement_time(Some(1_000), 899, 5, 100),
        Some(UpdateDecision::MeasurementTooOld)
    );
    // The window saturates at the ends of the clock.
    assert_eq!(check_measurement_time(Some(u64::MAX), u64::MAX, u64::MAX, 0), None);
    assert_eq!(check_measurement_time(Some(3), 0, 0, 3), None);
}

#[test]
fn first_imu_sample_sets_the_epoch() {
    let sample = ImuStamp { timestamp_us: 50, sequence: 7 };
    assert_eq!(imu_step(None, sample, [false; 3], [false; 3]), Ok(ImuStep::First));
}

#[test]
fn imu_samples_advance_by_their_spacing() {
    let prev = ImuStamp { timestamp_us: 1_000, sequence: 41 };
    let next = ImuStamp { timestamp_us: 3_500, sequence: 42 };
    assert_eq!(
        imu_step(Some(prev), next, [false; 3], [false; 3]),
        Ok(ImuStep::Advance { dt_us: 2_500 })
    );
    let wrap_prev = ImuStamp { timestamp_us: 1, sequence: u32::MAX };
    let wrap_next = ImuStamp { timestamp_us: 2, sequence: 0 };
    assert_eq!(
        imu_step(Some(wrap_prev), wrap_next, [false; 3], [false; 3]),
        Ok(ImuStep::Advance { dt_us: 1 })
    );
}

#[test]
fn bad_imu_samples_are_rejected_in_order() {
    let prev = ImuStamp { timestamp_us: 1_000, sequence: 41 };
    let same_time = ImuStamp { timestamp_us: 1_000, sequence: 42 };
    let skipped = ImuStamp { timestamp_us: 2_000, sequence: 44 };
    assert_eq!(
        imu_step(Some(prev), same_time, [false; 3], [false; 3]),
        Err(PropagationError::NonMonotonicTimestamp)
    );
    assert_eq!(
        imu_step(Some(prev), skipped, [false; 3], [false; 3]),
        Err(PropagationError::SequenceDiscontinuity)
    );
    // Saturation is checked before anything else.
    assert_eq!(
        imu_step(Some(prev), same_time, [false, false, true], [false; 3]),
        Err(PropagationError::SaturatedInput)
    );
    assert_eq!(
        imu_step(None, same_time, [false; 3], [true, false, false]),
        Err(PropagationError::SaturatedInput)
    );
}

#[test]
fn saturation_mask_bits() {
    assert_eq!(saturation_flags(0), [false, false, false]);
    assert_eq!(saturation_flags(0b101), [true, false, true]);
    assert_eq!(saturation_flags(0b1111_1010), [false, true, false]);
}

#[test]
fn history_drops_the_oldest_when_full() {
    let mut history = SnapshotHistory::new(2);
    history.push(10, 'a');
    history.push(20, 'b');
    assert_eq!(history.len(), 2);
    history.push(30, 'c');
    assert_eq!(history.len(), 2);
    assert_eq!(history.capacity(), 2);
    assert_eq!(history.timestamp_at(0), 20);
    assert_eq!(*history.snapshot(1), 'c');
}

#[test]
fn history_of_capacity_zero_keeps_nothing() {
    let mut history = SnapshotHistory::new(0);
    history.push(10, 1u8);
    assert_eq!(history.len(), 0);
    assert_eq!(history.snapshot_index(10, None, 0), None);
}

#[test]
fn snapshot_index_picks_the_newest_not_after_the_measurement() {
    let mut history = SnapshotHistory::new(4);
    history.push(100, 1u8);
    history.push(200, 2u8);
    history.push(300, 3u8);
    assert_eq!(history.snapshot_index(250, Some(300), 0), Some(1));
    assert_eq!(history.snapshot_index(300, Some(300), 0), Some(2));
    assert_eq!(history.snapshot_index(99, Some(300), 0), None);
    // A measurement too far in the future of the filter gets no snapshot.
    assert_eq!(history.snapshot_index(310, Some(300), 5), None);
    assert_eq!(history.snapshot_index(305, Some(300), 5), Some(2));
    assert_eq!(history.snapshot_index(1_000, None, 0), Some(2));
}

#[test]
fn replacing_a_snapshot_keeps_its_time() {
    let mut history = SnapshotHistory::new(3);
    history.push(100, 1u8);
    history.push(200, 2u8);
    history.replace_snapshot(0, 9);
    assert_eq!(history.timestamp_at(0), 100);
    assert_eq!(*history.snapshot(0), 9);
    assert_eq!(*history.snapshot(1), 2);
}

#[test]
fn imu_events_are_counted() {
    let mut diagnostics = EstimatorDiagnostics::default();
    let mut health = EstimatorHealth::default();
    record_imu_event(&mut diagnostics, &mut health, 10, Ok(()), true);
    assert_eq!(diagnostics.imu_samples, 1);
    assert_eq!(diagnostics.last_event_timestamp_us, Some(10));
    assert!(health.covariance_valid);
    record_imu_event(&mut diagnostics, &mut health, 20, Err(PropagationError::SaturatedInput), false);
    assert_eq!(diagnostics.imu_samples, 2);
    assert_eq!(diagnostics.propagation_rejections, 1);
    assert_eq!(diagnostics.last_propagation_error, Some(PropagationError::SaturatedInput));
    assert!(health.imu_saturated);
    assert!(!health.covariance_valid);
    record_imu_event(
        &mut diagnostics,
        &mut health,
        30,
        Err(PropagationError::NonMonotonicTimestamp),
        true,
    );
    assert!(!health.imu_saturated);
    assert_eq!(diagnostics.propagation_rejections, 2);
    // A good sample does not clear the saturation flag or the last error.
    record_imu_event(&mut diagnostics, &mut health, 40, Err(PropagationError::SaturatedInput), true);
    record_imu_event(&mut diagnostics, &mut health, 50, Ok(()), true);
    assert!(health.imu_saturated);
    assert_eq!(diagnostics.last_propagation_error, Some(PropagationError::SaturatedInput));
}

#[test]
fn measurements_count_towards_their_sensor() {
    let mut diagnostics = EstimatorDiagnostics::default();
    let mut health = EstimatorHealth::default();
    for t in 0..3 {
        record_measurement_event(&mut diagnostics, &mut health, MeasurementSource::GpsVelocity, t, true, true);
    }
    assert_eq!(health.gps.status, AidingStatus::Active);
    record_measurement_event(&mut diagnostics, &mut health, MeasurementSource::Barometer, 5, false, true);
    assert_eq!(health.barometer.status, AidingStatus::Suspect);
    assert_eq!(health.barometer.total_rejected, 1);
    assert_eq!(health.magnetometer.status, AidingStatus::Inactive);
    assert_eq!(diagnostics.accepted_measurements, 3);
    assert_eq!(diagnostics.rejected_measurements, 1);
    assert_eq!(diagnostics.last_event_timestamp_us, Some(5));
    record_measurement_event(&mut diagnostics, &mut health, MeasurementSource::GpsPosition, 6, false, true);
    assert_eq!(health.gps.status, AidingStatus::Suspect);
    assert_eq!(health.gps.total_accepted, 3);
}

#[test]
fn health_reset_forgets_everything() {
    let mut health = AidingHealth::default();
    for _ in 0..4 {
        health.record(true);
    }
    assert_eq!(health.status, AidingStatus::Active);
    health.reset();
    assert_eq!(health.status, AidingStatus::Inactive);
    assert_eq!(health.total_accepted, 0);
    health.record(true);
    assert_eq!(health.status, AidingStatus::Suspect);
}

#[test]
fn numerical_faults() {
    assert!(AidingHealth::last_decision_is_fault(UpdateDecision::NonFiniteInput));
    assert!(AidingHealth::last_decision_is_fault(UpdateDecision::InnovationNotPositiveDefinite));
    assert!(AidingHealth::last_decision_is_fault(UpdateDecision::NonFiniteResult));
    assert!(!AidingHealth::last_decision_is_fault(UpdateDecision::MeasurementTooOld));
}

#[test]
fn validity_follows_time_and_covariance() {
    assert_eq!(NavigationValidity::default(), navigation_validity(false, false));
    let v = navigation_validity(true, true);
    assert!(v.attitude && v.time_sync && v.covariance);
    assert!(!v.heading && !v.global_position && !v.horizontal_velocity);
    let v = navigation_validity(true, false);
    assert!(v.attitude && !v.covariance);
}
