//! The fixed-lag history of filter snapshots used to fuse delayed measurements.
//!
//! Each entry pairs the time of an IMU sample with whatever the filter keeps of that moment (a
//! snapshot of its state and the sample). A delayed measurement is fused into the newest
//! snapshot taken at or before its epoch, and the later samples are then replayed. The history
//! keeps at most `capacity` entries; a new entry pushes out the oldest.

use vstd::prelude::*;

verus! {

#[derive(Debug, Clone)]
pub struct SnapshotHistory<T> {
    entries: Vec<(u64, T)>,
    capacity: usize,
}

/// The index of the newest entry taken at or before `timestamp_us`, if any.
pub open spec fn newest_at_or_before<T>(entries: Seq<(u64, T)>, timestamp_us: u64) -> Option<nat>
    decreases entries.len(),
{
    if entries.len() == 0 {
        None
    } else if entries.last().0 <= timestamp_us {
        Some((entries.len() - 1) as nat)
    } else {
        newest_at_or_before(entries.drop_last(), timestamp_us)
    }
}

/// The snapshot into which a measurement taken at `timestamp_us` is fused: none when the history
/// is empty or the measurement is further ahead of the filter's time than the tolerance,
/// otherwise the newest entry taken at or before the measurement.
pub open spec fn snapshot_for<T>(
    entries: Seq<(u64, T)>,
    timestamp_us: u64,
    current_time_us: Option<u64>,
    future_tolerance_us: u64,
) -> Option<nat> {
    if entries.len() == 0 {
        None
    } else if current_time_us matches Some(current) && timestamp_us > current.saturating_add(
        future_tolerance_us,
    ) {
        None
    } else {
        newest_at_or_before(entries, timestamp_us)
    }
}

proof fn lemma_newest_in_range<T>(entries: Seq<(u64, T)>, timestamp_us: u64)
    ensures
        newest_at_or_before(entries, timestamp_us) matches Some(i) ==> i < entries.len()
            && entries[i as int].0 <= timestamp_us,
    decreases entries.len(),
{
    if entries.len() > 0 {
        lemma_newest_in_range(entries.drop_last(), timestamp_us);
    }
}

impl<T> SnapshotHistory<T> {
    pub closed spec fn spec_entries(&self) -> Seq<(u64, T)> {
        self.entries@
    }

    pub closed spec fn spec_capacity(&self) -> nat {
        self.capacity as nat
    }

    /// A history never holds more entries than its capacity.
    pub open spec fn wf(&self) -> bool {
        self.spec_entries().len() <= self.spec_capacity()
    }

    /// An empty history that keeps at most `capacity` entries.
    pub fn new(capacity: usize) -> (h: Self)
        ensures
            h.wf(),
            h.spec_entries() == Seq::<(u64, T)>::empty(),
            h.spec_capacity() == capacity,
    {
        SnapshotHistory { entries: Vec::new(), capacity }
    }

    pub fn len(&self) -> (n: usize)
        ensures
            n == self.spec_entries().len(),
    {
        self.entries.len()
    }

    pub fn capacity(&self) -> (n: usize)
        ensures
            n == self.spec_capacity(),
    {
        self.capacity
    }

    /// The time of the `index`-th entry (oldest first).
    pub fn timestamp_at(&self, index: usize) -> (t: u64)
        requires
            index < self.spec_entries().len(),
        ensures
            t == self.spec_entries()[index as int].0,
    {
        self.entries[index].0
    }

    /// The snapshot of the `index`-th entry (oldest first).
    pub fn snapshot(&self, index: usize) -> (s: &T)
        requires
            index < self.spec_entries().len(),
        ensures
            *s == self.spec_entries()[index as int].1,
    {
        &self.entries[index].1
    }

    /// Replace the snapshot of the `index`-th entry, keeping its time.
    pub fn replace_snapshot(&mut self, index: usize, snapshot: T)
        requires
            index < old(self).spec_entries().len(),
        ensures
            final(self).spec_entries() == old(self).spec_entries().update(
                index as int,
                (old(self).spec_entries()[index as int].0, snapshot),
            ),
            final(self).spec_capacity() == old(self).spec_capacity(),
    {
        let timestamp_us = self.entries[index].0;
        let _ = self.entries.remove(index);
        self.entries.insert(index, (timestamp_us, snapshot));
        proof {
            assert(self.entries@ =~= old(self).spec_entries().update(
                index as int,
                (old(self).spec_entries()[index as int].0, snapshot),
            ));
        }
    }

    /// Append an entry; when the history is full the oldest entry is dropped. A history of
    /// capacity zero keeps nothing.
    pub fn push(&mut self, timestamp_us: u64, snapshot: T)
        requires
            old(self).wf(),
        ensures
            final(self).wf(),
            final(self).spec_capacity() == old(self).spec_capacity(),
            final(self).spec_entries() == (if old(self).spec_capacity() == 0 {
                old(self).spec_entries()
            } else if old(self).spec_entries().len() < old(self).spec_capacity() {
                old(self).spec_entries().push((timestamp_us, snapshot))
            } else {
                old(self).spec_entries().drop_first().push((timestamp_us, snapshot))
            }),
    {
        if self.capacity == 0 {
            return;
        }
        if self.entries.len() >= self.capacity {
            let _ = self.entries.remove(0);
        }
        self.entries.push((timestamp_us, snapshot));
        proof {
            if old(self).spec_entries().len() >= old(self).spec_capacity() {
                assert(self.entries@ =~= old(self).spec_entries().drop_first().push(
                    (timestamp_us, snapshot),
                ));
            }
        }
    }

    /// The index of the snapshot into which a measurement taken at `timestamp_us` is fused, for a
    /// filter whose time is `current_time_us`.
    pub fn snapshot_index(
        &self,
        timestamp_us: u64,
        current_time_us: Option<u64>,
        future_tolerance_us: u64,
    ) -> (r: Option<usize>)
        ensures
            r matches Some(i) ==> snapshot_for(
                self.spec_entries(),
                timestamp_us,
                current_time_us,
                future_tolerance_us,
            ) == Some(i as nat),
            r is None ==> snapshot_for(
                self.spec_entries(),
                timestamp_us,
                current_time_us,
                future_tolerance_us,
            ) is None,
            r matches Some(i) ==> i < self.spec_entries().len() && self.spec_entries()[i as int].0
                <= timestamp_us,
    {
        proof {
            lemma_newest_in_range(self.entries@, timestamp_us);
        }
        let len = self.entries.len();
        if len == 0 {
            return None;
        }
        if let Some(current) = current_time_us {
            if timestamp_us > current.saturating_add(future_tolerance_us) {
                return None;
            }
        }
        let mut selected: Option<usize> = None;
        let mut index: usize = 0;
        while index < len
            invariant
                len == self.entries@.len(),
                index <= len,
                selected matches Some(i) ==> newest_at_or_before(
                    self.entries@.take(index as int),
                    timestamp_us,
                ) == Some(i as nat),
                selected is None ==> newest_at_or_before(
                    self.entries@.take(index as int),
                    timestamp_us,
                ) is None,
            decreases len - index,
        {
            proof {
                assert(self.entries@.take(index + 1).drop_last() =~= self.entries@.take(
                    index as int,
                ));
            }
            if self.entries[index].0 <= timestamp_us {
                selected = Some(index);
            }
            index = index + 1;
        }
        proof {
            assert(self.entries@.take(len as int) =~= self.entries@);
        }
        selected
    }
}

} // verus!
