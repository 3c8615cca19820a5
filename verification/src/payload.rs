//! The piezo payload experiment: it starts once the vertical acceleration has stayed above its
//! threshold for ten readings in a row.

use vstd::prelude::*;

verus! {

/// The piezoelectric sensor of the payload.
#[derive(Debug, Clone, Copy, PartialEq, Eq, Structural)]
pub struct PiezoSensor;

impl PiezoSensor {
    /// Bring the sensor up. It needs no set-up, so this changes nothing.
    pub fn init(&mut self)
        ensures
            *final(self) == *old(self),
    {
    }
}

/// The IMU of the payload.
#[derive(Debug, Clone, Copy, PartialEq, Eq, Structural)]
pub struct ImuSensor;

/// The number of readings in a row above the threshold that starts the experiment.
pub const STANDBY_READINGS: u32 = 10;

/// Counts the readings in a row above the launch threshold while the payload waits in standby.
#[derive(Debug, Clone, Copy, PartialEq, Eq, Structural)]
pub struct StandbyTrigger {
    count: u32,
}

/// How many readings at the end of `readings` are above the threshold.
pub open spec fn trailing_above(readings: Seq<bool>) -> nat
    decreases readings.len(),
{
    if readings.len() == 0 {
        0
    } else if readings.last() {
        trailing_above(readings.drop_last()) + 1
    } else {
        0
    }
}

impl StandbyTrigger {
    pub closed spec fn spec_count(&self) -> nat {
        self.count as nat
    }

    /// No reading yet.
    pub fn new() -> (t: Self)
        ensures
            t.spec_count() == 0,
    {
        StandbyTrigger { count: 0 }
    }

    /// Take one reading; returns whether the experiment should start now. A reading at or
    /// below the threshold starts the count again.
    pub fn observe(&mut self, above_threshold: bool) -> (start: bool)
        ensures
            final(self).spec_count() == (if above_threshold {
                if old(self).spec_count() == u32::MAX {
                    old(self).spec_count()
                } else {
                    old(self).spec_count() + 1
                }
            } else {
                0
            }),
            start == (final(self).spec_count() >= STANDBY_READINGS),
    {
        if above_threshold {
            self.count = self.count.saturating_add(1);
        } else {
            self.count = 0;
        }
        self.count >= STANDBY_READINGS
    }
}

/// The trigger after a sequence of readings, starting with no reading: its count is the number of
/// readings in a row above the threshold at the end (as long as that fits a `u32`).
pub open spec fn trigger_after(readings: Seq<bool>) -> nat
    decreases readings.len(),
{
    if readings.len() == 0 {
        0
    } else if readings.last() {
        let prev = trigger_after(readings.drop_last());
        if prev == u32::MAX {
            prev
        } else {
            prev + 1
        }
    } else {
        0
    }
}

/// The experiment starts exactly when the last ten readings (at least) were all above the
/// threshold: the count is the length of the final run of such readings.
pub proof fn lemma_trigger_counts_trailing_run(readings: Seq<bool>)
    requires
        readings.len() <= u32::MAX,
    ensures
        trigger_after(readings) == trailing_above(readings),
        trigger_after(readings) >= STANDBY_READINGS <==> (readings.len() >= STANDBY_READINGS
            && forall|i: int|
            readings.len() - STANDBY_READINGS <= i < readings.len() ==> #[trigger] readings[i]),
    decreases readings.len(),
{
    if readings.len() > 0 {
        let prev = readings.drop_last();
        lemma_trigger_counts_trailing_run(prev);
        lemma_trailing_run_bound(prev);
        if trigger_after(readings) >= STANDBY_READINGS {
            assert forall|i: int|
                readings.len() - STANDBY_READINGS <= i < readings.len() implies #[trigger] readings[i] by {
                if i < readings.len() - 1 {
                    assert(prev[i] == readings[i]);
                }
            }
        }
        if readings.len() >= STANDBY_READINGS && (forall|i: int|
            readings.len() - STANDBY_READINGS <= i < readings.len() ==> #[trigger] readings[i]) {
            assert(readings.last() == readings[readings.len() - 1]);
            if readings.len() > STANDBY_READINGS {
                assert forall|i: int|
                    prev.len() - (STANDBY_READINGS - 1) <= i < prev.len() implies #[trigger] prev[i] by {
                    assert(prev[i] == readings[i]);
                }
            }
            lemma_trailing_run_at_least(prev, (STANDBY_READINGS - 1) as nat);
        }
    }
}

proof fn lemma_trailing_run_bound(readings: Seq<bool>)
    ensures
        trailing_above(readings) <= readings.len(),
        forall|i: int|
            readings.len() - trailing_above(readings) <= i < readings.len() ==> #[trigger] readings[i],
    decreases readings.len(),
{
    if readings.len() > 0 {
        lemma_trailing_run_bound(readings.drop_last());
        if readings.last() {
            assert forall|i: int|
                readings.len() - trailing_above(readings) <= i < readings.len() implies #[trigger] readings[i] by {
                if i < readings.len() - 1 {
                    assert(readings.drop_last()[i] == readings[i]);
                }
            }
        }
    }
}

proof fn lemma_trailing_run_at_least(readings: Seq<bool>, n: nat)
    requires
        readings.len() >= n,
        forall|i: int| readings.len() - n <= i < readings.len() ==> #[trigger] readings[i],
    ensures
        trailing_above(readings) >= n,
    decreases n,
{
    if n > 0 {
        let prev = readings.drop_last();
        assert(readings[readings.len() - 1]);
        assert forall|i: int| prev.len() - (n - 1) <= i < prev.len() implies #[trigger] prev[i] by {
            assert(prev[i] == readings[i]);
        }
        lemma_trailing_run_at_least(prev, (n - 1) as nat);
    }
}

} // verus!
