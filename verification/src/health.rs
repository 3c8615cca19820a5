//! How much the estimator trusts each aiding sensor, and its running diagnostics.
//!
//! The filter arithmetic itself is floating point and lives outside this crate; what is decided
//! here is how the outcome of each update is counted and what it does to the sensor's status.

use vstd::prelude::*;

verus! {

/// Why a measurement update was or was not applied.
#[derive(Debug, Clone, Copy, PartialEq, Eq, Structural)]
pub enum UpdateDecision {
    Accepted,
    InnovationRejected,
    NonFiniteInput,
    InnovationNotPositiveDefinite,
    NonFiniteResult,
    EstimatorTimeUnavailable,
    MeasurementTooOld,
    MeasurementFromFuture,
}

/// Why an IMU sample could not be propagated.
#[derive(Debug, Clone, Copy, PartialEq, Eq, Structural)]
pub enum PropagationError {
    InvalidTimeStep,
    NonMonotonicTimestamp,
    SequenceDiscontinuity,
    NonFiniteInput,
    NonFiniteState,
    InvalidCovariance,
    SaturatedInput,
}

/// Why the filter could not be initialized from a single IMU sample.
#[derive(Debug, Clone, Copy, PartialEq, Eq, Structural)]
pub enum FilterError {
    InitNoAccel,
}

/// Why the stationary initializer could not produce a state.
#[derive(Debug, Clone, Copy, PartialEq, Eq, Structural)]
pub enum InitializationError {
    NotEnoughSamples,
    NonFiniteSample,
    VehicleMoving,
    InvalidGravityVector,
}

#[derive(Debug, Clone, Copy, PartialEq, Eq, Structural)]
pub enum AidingStatus {
    Inactive,
    Suspect,
    Active,
}

/// The record of one aiding sensor: a sensor becomes active after a streak of accepted updates
/// and inactive after a streak of rejected ones.
#[derive(Debug, Clone, Copy)]
pub struct AidingHealth {
    pub status: AidingStatus,
    accepted_streak: u8,
    rejected_streak: u8,
    pub total_accepted: u32,
    pub total_rejected: u32,
    activate_after: u8,
    deactivate_after: u8,
}

/// `x + 1`, saturating at the largest `u8`.
pub open spec fn saturating_inc_u8(x: u8) -> u8 {
    if x == u8::MAX {
        x
    } else {
        (x + 1) as u8
    }
}

/// `x + 1`, saturating at the largest `u32`.
pub open spec fn saturating_inc_u32(x: u32) -> u32 {
    if x == u32::MAX {
        x
    } else {
        (x + 1) as u32
    }
}

/// `x + 1`, saturating at the largest `u64`.
pub open spec fn saturating_inc_u64(x: u64) -> u64 {
    if x == u64::MAX {
        x
    } else {
        (x + 1) as u64
    }
}

impl AidingHealth {
    pub closed spec fn spec_status(&self) -> AidingStatus {
        self.status
    }

    pub closed spec fn spec_accepted_streak(&self) -> u8 {
        self.accepted_streak
    }

    pub closed spec fn spec_rejected_streak(&self) -> u8 {
        self.rejected_streak
    }

    pub closed spec fn spec_total_accepted(&self) -> u32 {
        self.total_accepted
    }

    pub closed spec fn spec_total_rejected(&self) -> u32 {
        self.total_rejected
    }

    pub closed spec fn spec_activate_after(&self) -> u8 {
        self.activate_after
    }

    pub closed spec fn spec_deactivate_after(&self) -> u8 {
        self.deactivate_after
    }

    /// The record of a sensor that has not reported yet: inactive, activated after three
    /// accepted updates in a row and deactivated after three rejected ones.
    pub open spec fn is_fresh(&self) -> bool {
        &&& self.spec_status() == AidingStatus::Inactive
        &&& self.spec_accepted_streak() == 0
        &&& self.spec_rejected_streak() == 0
        &&& self.spec_total_accepted() == 0
        &&& self.spec_total_rejected() == 0
        &&& self.spec_activate_after() == 3
        &&& self.spec_deactivate_after() == 3
    }

    /// Counts one update: an accepted one extends the accepted streak and ends the rejected
    /// one; the sensor is then active once the streak is long enough, and at least suspect.
    /// A rejected one does the opposite; the sensor is then inactive once the rejected streak
    /// is long enough, and suspect otherwise.
    pub closed spec fn after_record(self, accepted: bool) -> AidingHealth {
        if accepted {
            let streak = saturating_inc_u8(self.accepted_streak);
            AidingHealth {
                status: if streak >= self.activate_after {
                    AidingStatus::Active
                } else if self.status == AidingStatus::Inactive {
                    AidingStatus::Suspect
                } else {
                    self.status
                },
                accepted_streak: streak,
                rejected_streak: 0,
                total_accepted: saturating_inc_u32(self.total_accepted),
                ..self
            }
        } else {
            let streak = saturating_inc_u8(self.rejected_streak);
            AidingHealth {
                status: if streak >= self.deactivate_after {
                    AidingStatus::Inactive
                } else {
                    AidingStatus::Suspect
                },
                accepted_streak: 0,
                rejected_streak: streak,
                total_rejected: saturating_inc_u32(self.total_rejected),
                ..self
            }
        }
    }

    /// The sensor's aiding status.
    pub fn status(&self) -> (status: AidingStatus)
        ensures
            status == self.spec_status(),
    {
        self.status
    }

    /// The number of accepted updates counted (saturating).
    pub fn total_accepted(&self) -> (n: u32)
        ensures
            n == self.spec_total_accepted(),
    {
        self.total_accepted
    }

    /// The number of rejected updates counted (saturating).
    pub fn total_rejected(&self) -> (n: u32)
        ensures
            n == self.spec_total_rejected(),
    {
        self.total_rejected
    }

    /// The record after a sequence of updates, in order.
    pub open spec fn after_records(self, accepted: Seq<bool>) -> AidingHealth
        decreases accepted.len(),
    {
        if accepted.len() == 0 {
            self
        } else {
            self.after_records(accepted.drop_last()).after_record(accepted.last())
        }
    }

    /// Count the outcome of one measurement update. The new record is `after_record`, whose
    /// parts `lemma_after_record` states.
    pub fn record(&mut self, accepted: bool)
        ensures
            *final(self) == old(self).after_record(accepted),
    {
        if accepted {
            self.total_accepted = self.total_accepted.saturating_add(1);
            self.accepted_streak = self.accepted_streak.saturating_add(1);
            self.rejected_streak = 0;
            if self.accepted_streak >= self.activate_after {
                self.status = AidingStatus::Active;
            } else if self.status == AidingStatus::Inactive {
                self.status = AidingStatus::Suspect;
            }
        } else {
            self.total_rejected = self.total_rejected.saturating_add(1);
            self.rejected_streak = self.rejected_streak.saturating_add(1);
            self.accepted_streak = 0;
            if self.rejected_streak >= self.deactivate_after {
                self.status = AidingStatus::Inactive;
            } else {
                self.status = AidingStatus::Suspect;
            }
        }
    }

    /// Forget everything: back to the record of a sensor that has not reported yet.
    pub fn reset(&mut self)
        ensures
            final(self).is_fresh(),
    {
        *self = Self::default();
    }

    /// Whether an update's outcome points at a numerical fault rather than a bad measurement.
    pub fn last_decision_is_fault(reason: UpdateDecision) -> (fault: bool)
        ensures
            fault == (reason == UpdateDecision::NonFiniteInput || reason
                == UpdateDecision::InnovationNotPositiveDefinite || reason
                == UpdateDecision::NonFiniteResult),
    {
        match reason {
            UpdateDecision::NonFiniteInput
            | UpdateDecision::InnovationNotPositiveDefinite
            | UpdateDecision::NonFiniteResult => true,
            _ => false,
        }
    }
}

impl Default for AidingHealth {
    fn default() -> (h: AidingHealth)
        ensures
            h.is_fresh(),
    {
        AidingHealth {
            status: AidingStatus::Inactive,
            accepted_streak: 0,
            rejected_streak: 0,
            total_accepted: 0,
            total_rejected: 0,
            activate_after: 3,
            deactivate_after: 3,
        }
    }
}

/// What counting one update does to each part of the record: an accepted update extends the
/// accepted streak, ends the rejected one and makes the sensor active once the streak reaches
/// `activate_after` (and at least suspect); a rejected one does the opposite, making the sensor
/// inactive once its streak reaches `deactivate_after` and suspect before that. The totals
/// count the update; the thresholds never change.
pub broadcast proof fn lemma_after_record(h: AidingHealth, accepted: bool)
    ensures
        #![trigger h.after_record(accepted)]
        ({
            let r = h.after_record(accepted);
            &&& r.spec_activate_after() == h.spec_activate_after()
            &&& r.spec_deactivate_after() == h.spec_deactivate_after()
            &&& accepted ==> {
                let streak = saturating_inc_u8(h.spec_accepted_streak());
                &&& r.spec_accepted_streak() == streak
                &&& r.spec_rejected_streak() == 0
                &&& r.spec_total_accepted() == saturating_inc_u32(h.spec_total_accepted())
                &&& r.spec_total_rejected() == h.spec_total_rejected()
                &&& r.spec_status() == if streak >= h.spec_activate_after() {
                    AidingStatus::Active
                } else if h.spec_status() == AidingStatus::Inactive {
                    AidingStatus::Suspect
                } else {
                    h.spec_status()
                }
            }
            &&& !accepted ==> {
                let streak = saturating_inc_u8(h.spec_rejected_streak());
                &&& r.spec_accepted_streak() == 0
                &&& r.spec_rejected_streak() == streak
                &&& r.spec_total_accepted() == h.spec_total_accepted()
                &&& r.spec_total_rejected() == saturating_inc_u32(h.spec_total_rejected())
                &&& r.spec_status() == if streak >= h.spec_deactivate_after() {
                    AidingStatus::Inactive
                } else {
                    AidingStatus::Suspect
                }
            }
        }),
{
}

/// After `n` accepted updates in a row the accepted streak is at least `n` (or saturated).
proof fn lemma_accepted_streak(h: AidingHealth, accepted: Seq<bool>)
    requires
        forall|i: int| 0 <= i < accepted.len() ==> accepted[i],
    ensures
        h.after_records(accepted).spec_accepted_streak() >= if accepted.len() < 255 {
            accepted.len()
        } else {
            255
        },
        accepted.len() > 0 ==> h.after_records(accepted).spec_rejected_streak() == 0,
        h.after_records(accepted).spec_activate_after() == h.spec_activate_after(),
        h.after_records(accepted).spec_deactivate_after() == h.spec_deactivate_after(),
    decreases accepted.len(),
{
    if accepted.len() > 0 {
        lemma_accepted_streak(h, accepted.drop_last());
    }
}

/// After `n` rejected updates in a row the rejected streak is at least `n` (or saturated).
proof fn lemma_rejected_streak(h: AidingHealth, rejected: Seq<bool>)
    requires
        forall|i: int| 0 <= i < rejected.len() ==> !rejected[i],
    ensures
        h.after_records(rejected).spec_rejected_streak() >= if rejected.len() < 255 {
            rejected.len()
        } else {
            255
        },
        h.after_records(rejected).spec_activate_after() == h.spec_activate_after(),
        h.after_records(rejected).spec_deactivate_after() == h.spec_deactivate_after(),
    decreases rejected.len(),
{
    if rejected.len() > 0 {
        lemma_rejected_streak(h, rejected.drop_last());
    }
}

/// Aiding requires a good streak: after at least `activate_after` accepted updates in a row
/// (and at least one) a sensor is active, whatever came before.
pub proof fn lemma_good_streak_activates(h: AidingHealth, accepted: Seq<bool>)
    requires
        forall|i: int| 0 <= i < accepted.len() ==> accepted[i],
        accepted.len() >= 1,
        accepted.len() >= h.spec_activate_after(),
    ensures
        h.after_records(accepted).spec_status() == AidingStatus::Active,
{
    lemma_accepted_streak(h, accepted);
    lemma_accepted_streak(h, accepted.drop_last());
    let prev = h.after_records(accepted.drop_last());
    assert(accepted.last());
    assert(h.after_records(accepted) == prev.after_record(true));
}

/// Aiding drops after a bad streak: after at least `deactivate_after` rejected updates in a row
/// (and at least one) a sensor is inactive, whatever came before.
pub proof fn lemma_bad_streak_deactivates(h: AidingHealth, rejected: Seq<bool>)
    requires
        forall|i: int| 0 <= i < rejected.len() ==> !rejected[i],
        rejected.len() >= 1,
        rejected.len() >= h.spec_deactivate_after(),
    ensures
        h.after_records(rejected).spec_status() == AidingStatus::Inactive,
{
    lemma_rejected_streak(h, rejected);
    lemma_rejected_streak(h, rejected.drop_last());
    let prev = h.after_records(rejected.drop_last());
    assert(!rejected.last());
    assert(h.after_records(rejected) == prev.after_record(false));
}

/// An accepted update never leaves a sensor inactive, and a rejected one never leaves it
/// active; the totals count every update once (until they saturate).
pub proof fn lemma_record_direction(h: AidingHealth, accepted: bool)
    ensures
        accepted ==> h.after_record(accepted).spec_status() != AidingStatus::Inactive,
        !accepted ==> h.after_record(accepted).spec_status() != AidingStatus::Active,
        accepted ==> h.after_record(accepted).spec_total_accepted() == saturating_inc_u32(
            h.spec_total_accepted(),
        ) && h.after_record(accepted).spec_total_rejected() == h.spec_total_rejected(),
        !accepted ==> h.after_record(accepted).spec_total_rejected() == saturating_inc_u32(
            h.spec_total_rejected(),
        ) && h.after_record(accepted).spec_total_accepted() == h.spec_total_accepted(),
{
}

/// The aiding records of the estimator's sensors.
#[derive(Debug, Clone)]
pub struct EstimatorHealth {
    pub gps: AidingHealth,
    pub barometer: AidingHealth,
    pub magnetometer: AidingHealth,
    pub imu_saturated: bool,
    pub covariance_valid: bool,
}

impl Default for EstimatorHealth {
    fn default() -> (h: EstimatorHealth)
        ensures
            h.gps.is_fresh(),
            h.barometer.is_fresh(),
            h.magnetometer.is_fresh(),
            !h.imu_saturated,
            !h.covariance_valid,
    {
        EstimatorHealth {
            gps: AidingHealth::default(),
            barometer: AidingHealth::default(),
            magnetometer: AidingHealth::default(),
            imu_saturated: false,
            covariance_valid: false,
        }
    }
}

} // verus!
