//! The bookkeeping of the estimator's event loop: what every processed event does to the
//! diagnostics and to the sensors' health records, given what the filter made of it.

use vstd::prelude::*;
use crate::health::{
    saturating_inc_u32, saturating_inc_u64, AidingHealth, EstimatorHealth, PropagationError,
};

verus! {

/// Running counts of what the estimator did.
#[derive(Debug, Clone, PartialEq, Eq, Structural)]
pub struct EstimatorDiagnostics {
    pub imu_samples: u64,
    pub propagation_rejections: u32,
    pub accepted_measurements: u32,
    pub rejected_measurements: u32,
    pub last_event_timestamp_us: Option<u64>,
    pub last_propagation_error: Option<PropagationError>,
}

/// Diagnostics before the first event: all counts zero, nothing seen.
pub open spec fn fresh_diagnostics() -> EstimatorDiagnostics {
    EstimatorDiagnostics {
        imu_samples: 0,
        propagation_rejections: 0,
        accepted_measurements: 0,
        rejected_measurements: 0,
        last_event_timestamp_us: None,
        last_propagation_error: None,
    }
}

impl Default for EstimatorDiagnostics {
    fn default() -> (d: EstimatorDiagnostics)
        ensures
            d == fresh_diagnostics(),
    {
        EstimatorDiagnostics {
            imu_samples: 0,
            propagation_rejections: 0,
            accepted_measurements: 0,
            rejected_measurements: 0,
            last_event_timestamp_us: None,
            last_propagation_error: None,
        }
    }
}

/// The sensor a measurement came from.
#[derive(Debug, Clone, Copy, PartialEq, Eq, Structural)]
pub enum MeasurementSource {
    GpsVelocity,
    GpsPosition,
    Barometer,
    Magnetometer,
}

/// The health record that a source's updates count towards (both GPS kinds count for the GPS).
pub open spec fn source_health(health: EstimatorHealth, source: MeasurementSource) -> AidingHealth {
    match source {
        MeasurementSource::GpsVelocity | MeasurementSource::GpsPosition => health.gps,
        MeasurementSource::Barometer => health.barometer,
        MeasurementSource::Magnetometer => health.magnetometer,
    }
}

/// Record an IMU sample that was handed to the filter, and whether it could be propagated.
/// The covariance's validity is read again after every event.
pub fn record_imu_event(
    diagnostics: &mut EstimatorDiagnostics,
    health: &mut EstimatorHealth,
    timestamp_us: u64,
    result: Result<(), PropagationError>,
    covariance_finite: bool,
)
    ensures
        *final(diagnostics) == (match result {
            Ok(()) => EstimatorDiagnostics {
                imu_samples: saturating_inc_u64(old(diagnostics).imu_samples),
                last_event_timestamp_us: Some(timestamp_us),
                ..*old(diagnostics)
            },
            Err(error) => EstimatorDiagnostics {
                imu_samples: saturating_inc_u64(old(diagnostics).imu_samples),
                propagation_rejections: saturating_inc_u32(old(diagnostics).propagation_rejections),
                last_event_timestamp_us: Some(timestamp_us),
                last_propagation_error: Some(error),
                ..*old(diagnostics)
            },
        }),
        final(health).gps == old(health).gps,
        final(health).barometer == old(health).barometer,
        final(health).magnetometer == old(health).magnetometer,
        final(health).imu_saturated == (match result {
            Ok(()) => old(health).imu_saturated,
            Err(error) => error == PropagationError::SaturatedInput,
        }),
        final(health).covariance_valid == covariance_finite,
{
    diagnostics.last_event_timestamp_us = Some(timestamp_us);
    diagnostics.imu_samples = diagnostics.imu_samples.saturating_add(1);
    match result {
        Ok(()) => {},
        Err(error) => {
            diagnostics.propagation_rejections = diagnostics.propagation_rejections.saturating_add(
                1,
            );
            diagnostics.last_propagation_error = Some(error);
            health.imu_saturated = error == PropagationError::SaturatedInput;
        },
    }
    health.covariance_valid = covariance_finite;
}

/// Record a measurement that was handed to the filter, and whether the update was accepted:
/// it counts towards its sensor's health record and towards the accepted or rejected total.
pub fn record_measurement_event(
    diagnostics: &mut EstimatorDiagnostics,
    health: &mut EstimatorHealth,
    source: MeasurementSource,
    timestamp_us: u64,
    accepted: bool,
    covariance_finite: bool,
)
    ensures
        *final(diagnostics) == (if accepted {
            EstimatorDiagnostics {
                accepted_measurements: saturating_inc_u32(old(diagnostics).accepted_measurements),
                last_event_timestamp_us: Some(timestamp_us),
                ..*old(diagnostics)
            }
        } else {
            EstimatorDiagnostics {
                rejected_measurements: saturating_inc_u32(old(diagnostics).rejected_measurements),
                last_event_timestamp_us: Some(timestamp_us),
                ..*old(diagnostics)
            }
        }),
        source_health(*final(health), source) == source_health(*old(health), source).after_record(
            accepted,
        ),
        source != MeasurementSource::GpsVelocity && source != MeasurementSource::GpsPosition
            ==> final(health).gps == old(health).gps,
        source != MeasurementSource::Barometer ==> final(health).barometer == old(
            health,
        ).barometer,
        source != MeasurementSource::Magnetometer ==> final(health).magnetometer == old(
            health,
        ).magnetometer,
        final(health).imu_saturated == old(health).imu_saturated,
        final(health).covariance_valid == covariance_finite,
{
    diagnostics.last_event_timestamp_us = Some(timestamp_us);
    match source {
        MeasurementSource::GpsVelocity | MeasurementSource::GpsPosition => health.gps.record(
            accepted,
        ),
        MeasurementSource::Barometer => health.barometer.record(accepted),
        MeasurementSource::Magnetometer => health.magnetometer.record(accepted),
    }
    if accepted {
        diagnostics.accepted_measurements = diagnostics.accepted_measurements.saturating_add(1);
    } else {
        diagnostics.rejected_measurements = diagnostics.rejected_measurements.saturating_add(1);
    }
    health.covariance_valid = covariance_finite;
}

} // verus!
