//! The shared cache handle: many concurrent readers, one writer, behind a
//! verified reader-writer lock.
//!
//! The lock hands out whole `ZoneCache` values, and every record read out is
//! copied as a whole under the read lock, so no reader can ever observe a
//! partially written record: each entry update is all-or-nothing.

use vstd::prelude::*;
use vstd::rwlock::{RwLock, RwLockPredicate};
use std::sync::Arc;
use crate::cache::ZoneCache;
use crate::zone::{VminfodEvent, Zone, Zonedid};

verus! {

/// The lock invariant of the shared cache: the guarded map is well formed
/// (every record sits under its own zone id).
pub struct CacheInv {}

impl RwLockPredicate<ZoneCache> for CacheInv {
    open spec fn inv(self, v: ZoneCache) -> bool {
        v.wf()
    }
}

/// A shareable handle to the zone cache. Cloning the handle shares one cache;
/// any number of threads may read while the synchronizer writes.
pub struct Vmobjs {
    lock: Arc<RwLock<ZoneCache, CacheInv>>,
}

impl Vmobjs {
    #[verifier::type_invariant]
    spec fn type_inv(&self) -> bool {
        self.lock.pred() == (CacheInv {  })
    }

    /// A handle to a fresh, empty cache.
    pub fn new() -> (r: Vmobjs) {
        let cache = ZoneCache::new();
        Vmobjs { lock: Arc::new(RwLock::new(cache, Ghost(CacheInv {  }))) }
    }

    /// Another handle to the same cache.
    /// Relies on `Arc::clone`: the clone refers to the same allocation.
    #[verifier::external_body]
    pub fn clone_handle(&self) -> (r: Vmobjs)
        ensures
            r == *self,
    {
        Vmobjs { lock: Arc::clone(&self.lock) }
    }

    /// The record under a zone id, if present: an owned copy taken as a whole
    /// under the read lock. Never blocks on other readers.
    pub fn get(&self, zonedid: Zonedid) -> (r: Option<Zone>)
        ensures
            r matches Some(z) ==> z.zonedid == zonedid,
    {
        proof {
            use_type_invariant(self);
        }
        let handle = self.lock.acquire_read();
        let r = match handle.borrow().get(zonedid) {
            Some(z) => Some(z.duplicate()),
            None => None,
        };
        handle.release_read();
        r
    }

    /// Insert or replace wholesale the record under `vm.zonedid`.
    pub fn upsert(&self, vm: Zone) {
        proof {
            use_type_invariant(self);
        }
        let (mut cache, handle) = self.lock.acquire_write();
        cache.upsert(vm);
        handle.release_write(cache);
    }

    /// Apply one change event under the write lock: exactly
    /// `crate::cache::apply_change` on the guarded map.
    pub fn apply_event(&self, ev: VminfodEvent) {
        proof {
            use_type_invariant(self);
        }
        let (mut cache, handle) = self.lock.acquire_write();
        cache.apply_event(ev);
        handle.release_write(cache);
    }

    /// Replace the cache's contents with the `Ready` baseline, under one
    /// write lock: afterwards the cache holds exactly the snapshot's records,
    /// overwriting whatever state preceded the baseline.
    pub fn load_baseline(&self, zones: &Vec<Zone>) {
        proof {
            use_type_invariant(self);
        }
        let (mut cache, handle) = self.lock.acquire_write();
        cache.load_baseline(zones);
        handle.release_write(cache);
    }
}

} // verus!
