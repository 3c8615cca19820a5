//! The timing decisions of the estimator: which IMU samples may be integrated and which
//! measurements are too old or too new to be fused.

use vstd::prelude::*;
use crate::health::{PropagationError, UpdateDecision};

verus! {

/// Whether a measurement taken at `timestamp_us` may be fused into a filter whose time is
/// `current_time_us`: `None` when it may, otherwise the reason it is rejected. A filter that has
/// not integrated an IMU sample has no time; a measurement may be at most `future_tolerance_us`
/// ahead of the filter and at most `max_age_us` behind it.
pub open spec fn measurement_time_decision(
    current_time_us: Option<u64>,
    timestamp_us: u64,
    future_tolerance_us: u64,
    max_age_us: u64,
) -> Option<UpdateDecision> {
    match current_time_us {
        None => Some(UpdateDecision::EstimatorTimeUnavailable),
        Some(current) => if timestamp_us > current.saturating_add(future_tolerance_us) {
            Some(UpdateDecision::MeasurementFromFuture)
        } else if current.saturating_sub(timestamp_us) > max_age_us {
            Some(UpdateDecision::MeasurementTooOld)
        } else {
            None
        },
    }
}

pub fn check_measurement_time(
    current_time_us: Option<u64>,
    timestamp_us: u64,
    future_tolerance_us: u64,
    max_age_us: u64,
) -> (r: Option<UpdateDecision>)
    ensures
        r == measurement_time_decision(
            current_time_us,
            timestamp_us,
            future_tolerance_us,
            max_age_us,
        ),
{
    let Some(current) = current_time_us else {
        return Some(UpdateDecision::EstimatorTimeUnavailable);
    };
    if timestamp_us > current.saturating_add(future_tolerance_us) {
        return Some(UpdateDecision::MeasurementFromFuture);
    }
    if current.saturating_sub(timestamp_us) > max_age_us {
        return Some(UpdateDecision::MeasurementTooOld);
    }
    None
}

/// The time and sequence number of the last IMU sample the filter integrated.
#[derive(Debug, Clone, Copy, PartialEq, Eq, Structural)]
pub struct ImuStamp {
    pub timestamp_us: u64,
    pub sequence: u32,
}

/// What to do with an IMU sample that passed the checks.
#[derive(Debug, Clone, Copy, PartialEq, Eq, Structural)]
pub enum ImuStep {
    /// The first sample: it sets the integration epoch and does not move the state.
    First,
    /// Integrate over `dt_us` microseconds since the previous sample.
    Advance { dt_us: u64 },
}

/// The sequence number that follows `sequence` (wrapping around).
pub open spec fn next_sequence(sequence: u32) -> u32 {
    if sequence == u32::MAX {
        0
    } else {
        (sequence + 1) as u32
    }
}

/// The checks an IMU sample must pass before it is integrated, in order: no axis saturated, then
/// (after the first sample) a later timestamp and the next sequence number.
pub open spec fn imu_step_decision(
    previous: Option<ImuStamp>,
    sample: ImuStamp,
    accel_saturated: [bool; 3],
    gyro_saturated: [bool; 3],
) -> Result<ImuStep, PropagationError> {
    if accel_saturated@.contains(true) || gyro_saturated@.contains(true) {
        Err(PropagationError::SaturatedInput)
    } else {
        match previous {
            None => Ok(ImuStep::First),
            Some(prev) => if sample.timestamp_us <= prev.timestamp_us {
                Err(PropagationError::NonMonotonicTimestamp)
            } else if sample.sequence != next_sequence(prev.sequence) {
                Err(PropagationError::SequenceDiscontinuity)
            } else {
                Ok(ImuStep::Advance { dt_us: (sample.timestamp_us - prev.timestamp_us) as u64 })
            },
        }
    }
}

fn any_set(flags: [bool; 3]) -> (b: bool)
    ensures
        b == flags@.contains(true),
{
    let b = flags[0] || flags[1] || flags[2];
    proof {
        if flags@.contains(true) {
            let i = choose|i: int| 0 <= i < flags@.len() && flags@[i] == true;
            assert(flags@[i]);
        }
        if b {
            if flags[0] {
                assert(flags@[0] == true);
            } else if flags[1] {
                assert(flags@[1] == true);
            } else {
                assert(flags@[2] == true);
            }
        }
    }
    b
}

/// Decide what to do with an IMU sample, given the last sample the filter integrated.
pub fn imu_step(
    previous: Option<ImuStamp>,
    sample: ImuStamp,
    accel_saturated: [bool; 3],
    gyro_saturated: [bool; 3],
) -> (r: Result<ImuStep, PropagationError>)
    ensures
        r == imu_step_decision(previous, sample, accel_saturated, gyro_saturated),
{
    if any_set(accel_saturated) || any_set(gyro_saturated) {
        return Err(PropagationError::SaturatedInput);
    }
    let Some(prev) = previous else {
        return Ok(ImuStep::First);
    };
    if sample.timestamp_us <= prev.timestamp_us {
        return Err(PropagationError::NonMonotonicTimestamp);
    }
    if sample.sequence != prev.sequence.wrapping_add(1) {
        return Err(PropagationError::SequenceDiscontinuity);
    }
    Ok(ImuStep::Advance { dt_us: sample.timestamp_us - prev.timestamp_us })
}

/// The saturation flags of the three axes, from a mask whose bits 0, 1 and 2 stand for x, y and
/// z.
pub fn saturation_flags(mask: u8) -> (flags: [bool; 3])
    ensures
        flags@ == seq![mask & 1 != 0, mask & 2 != 0, mask & 4 != 0],
{
    let flags = [mask & 0b001 != 0, mask & 0b010 != 0, mask & 0b100 != 0];
    assert(flags@ =~= seq![mask & 1 != 0, mask & 2 != 0, mask & 4 != 0]);
    flags
}

} // verus!
