//! The shared-state gateway: the concurrency boundary of the process.
//!
//! One reading is owned by the gateway for the life of the process. The
//! acquisition loop is its only writer; arbitrarily many concurrent
//! readers take snapshots. Both sides go through a verified
//! reader-writer lock, so every mutation — the three channel writes of an
//! update, or a fault reset — happens whole, inside one exclusive
//! critical section: no snapshot can ever mix one update's power with
//! another update's voltage. Readers receive copies, never a live
//! reference, and no I/O happens while the lock is held.

use vstd::prelude::*;
use vstd::rwlock::{RwLock, RwLockPredicate};
use crate::reading::{PowerEwma, RawSample};

verus! {

/// What may be stored in the gateway's lock: a well-formed reading.
pub struct SnapshotPred {}

impl RwLockPredicate<PowerEwma> for SnapshotPred {
    open spec fn inv(self, v: PowerEwma) -> bool {
        v.wf()
    }
}

/// The single shared handle to the process's one smoothed reading.
pub struct Gateway {
    lock: RwLock<PowerEwma, SnapshotPred>,
}

impl Gateway {
    /// Create the gateway holding a fresh reading: no sample yet, every
    /// channel at the neutral zero.
    pub fn new() -> Gateway {
        Gateway { lock: RwLock::new(PowerEwma::new(), Ghost(SnapshotPred {})) }
    }

    /// Copy out the current reading.
    ///
    /// Always succeeds, whatever the state — before the first sample the
    /// copy shows `initialized == false` and, as the contract says,
    /// nothing but neutral zeros in the channels.
    pub fn get_snapshot(&self) -> (r: PowerEwma)
        ensures
            r.wf(),
            !r.initialized ==> r.channels() == RawSample::zero_spec(),
    {
        let handle = self.lock.acquire_read();
        let r = *handle.borrow();
        handle.release_read();
        r
    }

    /// Apply one sample to the shared reading, in a single exclusive
    /// critical section: seed it if no sample has arrived yet, otherwise
    /// store `blended`, the caller's per-channel blend of history and
    /// sample (see [`PowerEwma::update_with`]).
    pub fn record(&self, sample: RawSample, blended: RawSample) {
        let (mut v, handle) = self.lock.acquire_write();
        v.update_with(sample, blended);
        handle.release_write(v);
    }

    /// Fault path: zero the channels of the shared reading, leaving the
    /// `initialized` flag as it was, in a single exclusive critical
    /// section (see [`PowerEwma::reset`]).
    pub fn fault_reset(&self) {
        let (mut v, handle) = self.lock.acquire_write();
        v.reset();
        handle.release_write(v);
    }
}

} // verus!
