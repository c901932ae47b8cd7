//! The zone cache: a map from zone id to zone record, with the exact effect
//! of every event spelled out over `Map`.

use vstd::prelude::*;
use std::collections::HashMap;
use crate::zone::{alias_changed, spec_alias_changed, VminfodEvent, Zone, Zonedid};

verus! {

broadcast use vstd::std_specs::hash::group_hash_axioms;

/// What a change event writes to the cache, if anything: `Create` writes its
/// record wholesale; `Modify` writes wholesale exactly when the diff names
/// the tracked field; `Delete` writes nothing (entries are kept so in-flight
/// downstream work can still resolve the last-known record); `Ready` is not a
/// change event and writes nothing here (the synchronizer loads its snapshot
/// as the baseline instead).
pub open spec fn event_write(ev: VminfodEvent) -> Option<Zone> {
    match ev {
        VminfodEvent::Create { vm } => Some(vm),
        VminfodEvent::Modify { vm, changes } => if spec_alias_changed(changes@) {
            Some(vm)
        } else {
            None
        },
        _ => None,
    }
}

/// The cache map after one change event: the written record replaces the
/// entry under its zone id, or the map is untouched.
pub open spec fn apply_change(m: Map<Zonedid, Zone>, ev: VminfodEvent) -> Map<Zonedid, Zone> {
    match event_write(ev) {
        Some(vm) => m.insert(vm.zonedid, vm),
        None => m,
    }
}

/// The cache map after loading a snapshot: each record inserted in order
/// under its zone id, so for a duplicated id the later record wins.
pub open spec fn load_snapshot(m: Map<Zonedid, Zone>, zones: Seq<Zone>) -> Map<Zonedid, Zone>
    decreases zones.len(),
{
    if zones.len() == 0 {
        m
    } else {
        load_snapshot(m.insert(zones[0].zonedid, zones[0]), zones.skip(1))
    }
}

/// Loading a snapshot of one more record loads the prefix, then inserts the
/// last record.
pub proof fn lemma_load_snapshot_push(m: Map<Zonedid, Zone>, zones: Seq<Zone>, z: Zone)
    ensures
        load_snapshot(m, zones.push(z)) == load_snapshot(m, zones).insert(z.zonedid, z),
    decreases zones.len(),
{
    if zones.len() == 0 {
        assert(zones.push(z)[0] == z);
        assert(zones.push(z).skip(1) =~= Seq::<Zone>::empty());
        assert(load_snapshot(m, zones.push(z)) == load_snapshot(
            m.insert(z.zonedid, z),
            zones.push(z).skip(1),
        ));
        assert(load_snapshot(m.insert(z.zonedid, z), Seq::<Zone>::empty()) == m.insert(
            z.zonedid,
            z,
        ));
        assert(load_snapshot(m, zones) == m);
    } else {
        assert(zones.push(z)[0] == zones[0]);
        assert(zones.push(z).skip(1) =~= zones.skip(1).push(z));
        assert(load_snapshot(m, zones.push(z)) == load_snapshot(
            m.insert(zones[0].zonedid, zones[0]),
            zones.push(z).skip(1),
        ));
        lemma_load_snapshot_push(m.insert(zones[0].zonedid, zones[0]), zones.skip(1), z);
        assert(load_snapshot(m, zones) == load_snapshot(
            m.insert(zones[0].zonedid, zones[0]),
            zones.skip(1),
        ));
    }
}

/// The cache: zone id to zone record; keys unique; the last write for a key
/// wins; only whole records are ever stored or replaced.
pub struct ZoneCache {
    map: HashMap<Zonedid, Zone>,
}

impl ZoneCache {
    pub closed spec fn view(&self) -> Map<Zonedid, Zone> {
        self.map@
    }

    /// Every record sits under its own zone id.
    pub open spec fn wf(&self) -> bool {
        forall|id: Zonedid| self@.contains_key(id) ==> (#[trigger] self@[id]).zonedid == id
    }

    /// An empty cache.
    pub fn new() -> (r: ZoneCache)
        ensures
            r@ == Map::<Zonedid, Zone>::empty(),
            r.wf(),
    {
        ZoneCache { map: HashMap::new() }
    }

    /// The record under a zone id, if present.
    pub fn get(&self, zonedid: Zonedid) -> (r: Option<&Zone>)
        ensures
            match r {
                Some(z) => self@.contains_key(zonedid) && *z == self@[zonedid],
                None => !self@.contains_key(zonedid),
            },
    {
        self.map.get(&zonedid)
    }

    /// Insert or replace wholesale the record under `vm.zonedid`.
    pub fn upsert(&mut self, vm: Zone)
        ensures
            final(self)@ == old(self)@.insert(vm.zonedid, vm),
            old(self).wf() ==> final(self).wf(),
    {
        let id = vm.zonedid;
        self.map.insert(id, vm);
        proof {
            if old(self).wf() {
                assert forall|k: Zonedid| self@.contains_key(k) implies (#[trigger] self@[k]).zonedid
                    == k by {
                    if k != vm.zonedid {
                        assert(old(self)@.contains_key(k) && self@[k] == old(self)@[k]);
                    }
                }
            }
        }
    }

    /// Apply one change event: exactly `apply_change` on the cache's map.
    /// A `Modify` whose diff does not name the tracked field, and every
    /// `Delete`, leave the cache untouched.
    pub fn apply_event(&mut self, ev: VminfodEvent)
        ensures
            final(self)@ == apply_change(old(self)@, ev),
            old(self).wf() ==> final(self).wf(),
    {
        match ev {
            VminfodEvent::Create { vm } => self.upsert(vm),
            VminfodEvent::Modify { vm, changes } => {
                if alias_changed(changes.as_slice()) {
                    self.upsert(vm);
                }
            },
            VminfodEvent::Delete { vm: _ } => {},
            VminfodEvent::Ready { vms: _ } => {},
        }
    }

    /// Replace the whole cache with a snapshot loaded over an empty map:
    /// afterwards the cache holds exactly the snapshot's records, whatever it
    /// held before.
    pub fn load_baseline(&mut self, zones: &Vec<Zone>)
        ensures
            final(self)@ == load_snapshot(Map::<Zonedid, Zone>::empty(), zones@),
            final(self).wf(),
    {
        self.map.clear();
        self.bulk_load(zones);
    }

    /// Load a snapshot over the current map: equivalent to upserting each
    /// record in order.
    pub fn bulk_load(&mut self, zones: &Vec<Zone>)
        ensures
            final(self)@ == load_snapshot(old(self)@, zones@),
            old(self).wf() ==> final(self).wf(),
    {
        let ghost m0 = self@;
        let ghost wf0 = self.wf();
        let n = zones.len();
        for i in 0..n
            invariant
                n == zones@.len(),
                self@ == load_snapshot(m0, zones@.take(i as int)),
                wf0 ==> self.wf(),
                wf0 == old(self).wf(),
                m0 == old(self)@,
        {
            let z = zones[i].duplicate();
            proof {
                assert(zones@.take(i + 1) =~= zones@.take(i as int).push(zones@[i as int]));
                lemma_load_snapshot_push(m0, zones@.take(i as int), zones@[i as int]);
            }
            self.upsert(z);
        }
        proof {
            assert(zones@.take(n as int) =~= zones@);
        }
    }
}

} // verus!
