//! Single-slot mailbox for the last complete snapshot.
//!
//! Exactly one publish happens per successful cycle, at the terminal tag;
//! an aborted cycle publishes nothing, so readers only ever see the previous
//! complete snapshot or the new one, never an interleaving.  The writer
//! replaces the held value unconditionally: last write wins.

use vstd::prelude::*;

verus! {

pub struct SnapshotPublisher<T> {
    latest: Option<T>,
}

impl<T> SnapshotPublisher<T> {
    /// The snapshot currently held, if a cycle ever completed.
    pub closed spec fn spec_latest(&self) -> Option<T> {
        self.latest
    }

    pub fn new() -> (r: SnapshotPublisher<T>)
        ensures
            r.spec_latest() is None,
    {
        SnapshotPublisher { latest: None }
    }

    /// Replaces the held snapshot with a freshly completed one.
    pub fn publish(&mut self, snapshot: T)
        ensures
            final(self).spec_latest() == Some(snapshot),
    {
        self.latest = Some(snapshot);
    }

    /// Read-only access to the last complete snapshot.
    pub fn latest(&self) -> (r: Option<&T>)
        ensures
            match r {
                Some(v) => self.spec_latest() == Some(*v),
                None => self.spec_latest() is None,
            },
    {
        self.latest.as_ref()
    }
}

} // verus!
