//! Plain records shared by the estimator and its users.

use vstd::prelude::*;

verus! {

/// Monotonic physical sample time and driver delivery time.
#[derive(Debug, Clone, Copy, PartialEq, Eq, Structural)]
pub struct SampleTime {
    pub timestamp_us: u64,
    pub arrival_timestamp_us: u64,
    pub sequence: u32,
}

/// Which parts of a navigation solution can be relied on.
#[derive(Debug, Clone, Copy, PartialEq, Eq, Structural)]
pub struct NavigationValidity {
    pub attitude: bool,
    pub heading: bool,
    pub horizontal_velocity: bool,
    pub vertical_velocity: bool,
    pub local_horizontal_position: bool,
    pub local_vertical_position: bool,
    pub global_position: bool,
    pub covariance: bool,
    pub time_sync: bool,
}

/// Nothing is valid.
pub open spec fn nothing_valid() -> NavigationValidity {
    NavigationValidity {
        attitude: false,
        heading: false,
        horizontal_velocity: false,
        vertical_velocity: false,
        local_horizontal_position: false,
        local_vertical_position: false,
        global_position: false,
        covariance: false,
        time_sync: false,
    }
}

impl Default for NavigationValidity {
    fn default() -> (v: NavigationValidity)
        ensures
            v == nothing_valid(),
    {
        NavigationValidity {
            attitude: false,
            heading: false,
            horizontal_velocity: false,
            vertical_velocity: false,
            local_horizontal_position: false,
            local_vertical_position: false,
            global_position: false,
            covariance: false,
            time_sync: false,
        }
    }
}

/// The validity of the solution of a filter that has (or has not yet) taken an IMU sample and
/// whose covariance is (or is not) finite: attitude and time sync once the filter has a time,
/// covariance when it is finite, nothing else.
pub fn navigation_validity(has_time: bool, covariance_finite: bool) -> (v: NavigationValidity)
    ensures
        v == (NavigationValidity {
            attitude: has_time,
            covariance: covariance_finite,
            time_sync: has_time,
            ..nothing_valid()
        }),
{
    NavigationValidity {
        attitude: has_time,
        covariance: covariance_finite,
        time_sync: has_time,
        ..NavigationValidity::default()
    }
}

} // verus!
