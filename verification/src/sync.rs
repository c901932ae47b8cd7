//! The synchronizer: a two-phase state machine that folds lifecycle events
//! into the shared cache, in arrival order, and raises the readiness barrier
//! exactly once, after the first `Ready` baseline is fully applied.
//!
//! Verified functions cannot block on a channel indefinitely, so the drain
//! loop itself is the caller's: it takes each event off the ordered channel
//! and hands it to [`Synchronizer::handle_event`], which makes every
//! decision. On the first fatal error the caller stops the loop; nothing here
//! retries, because a reconnect without a fresh `Ready` baseline would leave
//! the cache in an unverifiable state.

use vstd::prelude::*;
use crate::barrier::{ready_barrier, ReadySignal, ReadyWaiter};
use crate::cache::{apply_change, event_write, load_snapshot};
use crate::decode::{parse_zones, spec_parse_zones, DecodeError};
use crate::shared::Vmobjs;
use crate::zone::{VminfodEvent, Zone, Zonedid};

verus! {

/// Why the synchronizer stopped. Every exit is loud; none of these is ever
/// papered over.
#[derive(Debug, PartialEq, Eq, Structural, Clone, Copy)]
pub enum SyncError {
    /// A second `Ready` arrived: the source broke its one-baseline contract,
    /// so the cache can no longer be trusted. Reported distinctly from decode
    /// errors, since it is a contract breach, not malformed data.
    ProtocolViolation,
    /// A `Ready` payload could not be decoded: the pipeline stops rather than
    /// continue on a possibly corrupt baseline.
    BadSnapshot(DecodeError),
    /// The event channel closed: the transport ended, and no reconnect is
    /// attempted.
    StreamClosed,
}

/// The cache map after folding a sequence of change events in order.
pub open spec fn fold_changes(m: Map<Zonedid, Zone>, evs: Seq<VminfodEvent>) -> Map<Zonedid, Zone>
    decreases evs.len(),
{
    if evs.len() == 0 {
        m
    } else {
        fold_changes(apply_change(m, evs[0]), evs.skip(1))
    }
}

/// The record written to a zone id by the last event of the sequence that
/// writes to it, if any event does.
pub open spec fn last_write(evs: Seq<VminfodEvent>, zonedid: Zonedid) -> Option<Zone>
    decreases evs.len(),
{
    if evs.len() == 0 {
        None
    } else if event_write(evs.last()) matches Some(vm) && vm.zonedid == zonedid {
        event_write(evs.last())
    } else {
        last_write(evs.drop_last(), zonedid)
    }
}

/// The record under a zone id after loading a snapshot over `m`: the last
/// snapshot record with that id, or whatever `m` held.
pub open spec fn snapshot_entry(m: Map<Zonedid, Zone>, zones: Seq<Zone>, zonedid: Zonedid) -> Option<Zone>
    decreases zones.len(),
{
    if zones.len() == 0 {
        if m.contains_key(zonedid) {
            Some(m[zonedid])
        } else {
            None
        }
    } else if zones.last().zonedid == zonedid {
        Some(zones.last())
    } else {
        snapshot_entry(m, zones.drop_last(), zonedid)
    }
}

/// Folding one more change event folds the prefix, then applies the last
/// event.
pub proof fn lemma_fold_changes_push(m: Map<Zonedid, Zone>, evs: Seq<VminfodEvent>, e: VminfodEvent)
    ensures
        fold_changes(m, evs.push(e)) == apply_change(fold_changes(m, evs), e),
    decreases evs.len(),
{
    if evs.len() == 0 {
        assert(evs.push(e)[0] == e);
        assert(evs.push(e).skip(1) =~= Seq::<VminfodEvent>::empty());
        assert(fold_changes(m, evs.push(e)) == fold_changes(
            apply_change(m, e),
            evs.push(e).skip(1),
        ));
        assert(fold_changes(apply_change(m, e), Seq::<VminfodEvent>::empty()) == apply_change(
            m,
            e,
        ));
        assert(fold_changes(m, evs) == m);
    } else {
        assert(evs.push(e)[0] == evs[0]);
        assert(evs.push(e).skip(1) =~= evs.skip(1).push(e));
        assert(fold_changes(m, evs.push(e)) == fold_changes(
            apply_change(m, evs[0]),
            evs.push(e).skip(1),
        ));
        lemma_fold_changes_push(apply_change(m, evs[0]), evs.skip(1), e);
        assert(fold_changes(m, evs) == fold_changes(apply_change(m, evs[0]), evs.skip(1)));
    }
}

/// The law of the live phase: after folding any sequence of change events
/// over any starting map, each zone id holds the record of the most recent
/// event that wrote to it; an id no event wrote to holds what it held before;
/// and no id is ever removed, since a `Delete` never writes.
pub proof fn lemma_last_write_wins(m: Map<Zonedid, Zone>, evs: Seq<VminfodEvent>, zonedid: Zonedid)
    ensures
        ({
            let folded = fold_changes(m, evs);
            match last_write(evs, zonedid) {
                Some(vm) => folded.contains_key(zonedid) && folded[zonedid] == vm,
                None => folded.contains_key(zonedid) == m.contains_key(zonedid) && (m.contains_key(
                    zonedid,
                ) ==> folded[zonedid] == m[zonedid]),
            }
        }),
    decreases evs.len(),
{
    if evs.len() > 0 {
        let pre = evs.drop_last();
        let e = evs.last();
        assert(pre.push(e) =~= evs);
        lemma_fold_changes_push(m, pre, e);
        lemma_last_write_wins(m, pre, zonedid);
    }
}

/// The law of the baseline: loading a snapshot over any starting map leaves,
/// under each zone id, the last snapshot record with that id, or what the map
/// held before if the snapshot has none; and loading removes nothing.
pub proof fn lemma_snapshot_entry(m: Map<Zonedid, Zone>, zones: Seq<Zone>, zonedid: Zonedid)
    ensures
        ({
            let loaded = load_snapshot(m, zones);
            match snapshot_entry(m, zones, zonedid) {
                Some(vm) => loaded.contains_key(zonedid) && loaded[zonedid] == vm,
                None => !loaded.contains_key(zonedid),
            }
        }),
    decreases zones.len(),
{
    if zones.len() > 0 {
        let pre = zones.drop_last();
        let z = zones.last();
        assert(pre.push(z) =~= zones);
        crate::cache::lemma_load_snapshot_push(m, pre, z);
        lemma_snapshot_entry(m, pre, zonedid);
    }
}

/// One full stream folded over an empty cache: one `Ready` baseline, then any
/// change events. Each zone id ends at the record of the most recent write to
/// it — the last change event that wrote it, or failing that the last
/// snapshot record with that id — and once an id is in the cache, nothing
/// removes it.
pub proof fn lemma_stream_fold(snapshot: Seq<Zone>, evs: Seq<VminfodEvent>, zonedid: Zonedid)
    ensures
        ({
            let baseline = load_snapshot(Map::<Zonedid, Zone>::empty(), snapshot);
            let folded = fold_changes(baseline, evs);
            &&& (match last_write(evs, zonedid) {
                Some(vm) => folded.contains_key(zonedid) && folded[zonedid] == vm,
                None => match snapshot_entry(Map::<Zonedid, Zone>::empty(), snapshot, zonedid) {
                    Some(vm) => folded.contains_key(zonedid) && folded[zonedid] == vm,
                    None => !folded.contains_key(zonedid),
                },
            })
            &&& baseline.contains_key(zonedid) ==> folded.contains_key(zonedid)
        }),
{
    lemma_snapshot_entry(Map::<Zonedid, Zone>::empty(), snapshot, zonedid);
    lemma_last_write_wins(load_snapshot(Map::<Zonedid, Zone>::empty(), snapshot), evs, zonedid);
}

/// The synchronizer's state: the shared cache it writes, and the readiness
/// barrier it still holds while awaiting the baseline.
pub struct Synchronizer {
    vmobjs: Vmobjs,
    pending: Option<ReadySignal>,
}

impl Synchronizer {
    /// Whether the baseline has been applied. Before that, the synchronizer
    /// still holds the one-shot readiness barrier.
    pub closed spec fn live(&self) -> bool {
        self.pending is None
    }

    /// A synchronizer over the given cache handle, awaiting its baseline,
    /// paired with the waiter its caller blocks on. The barrier is raised
    /// when the first `Ready` has been fully applied, and the signalling half
    /// lives inside the synchronizer until then, so nothing else can raise it.
    pub fn new(vmobjs: Vmobjs) -> (r: (Synchronizer, ReadyWaiter))
        ensures
            !r.0.live(),
    {
        let (signal, waiter) = ready_barrier();
        (Synchronizer { vmobjs, pending: Some(signal) }, waiter)
    }

    /// Handle one event, in arrival order.
    ///
    /// The first `Ready` whose payload decodes replaces the cache's contents
    /// with its snapshot — overwriting whatever state preceded the baseline —
    /// and only then raises the barrier, consuming it: the transition into
    /// the live phase and the one raise are the same step, so a second raise
    /// is impossible by construction. It succeeds if and only if the payload
    /// is a valid snapshot; on a bad payload nothing is loaded and the
    /// barrier stays down. A `Ready` in the live phase is a protocol
    /// violation, surfaced and never silently processed. Change events fold
    /// into the cache in either phase (before the baseline they are applied
    /// opportunistically; the baseline overwrites them).
    pub fn handle_event(&mut self, ev: VminfodEvent) -> (r: Result<(), SyncError>)
        ensures
            old(self).live() ==> final(self).live(),
            old(self).live() && ev is Ready ==> (r matches Err(e)
                && e == SyncError::ProtocolViolation),
            !old(self).live() ==> (match ev {
                VminfodEvent::Ready { vms } => match r {
                    Ok(_) => spec_parse_zones(vms@) is Ok && final(self).live(),
                    Err(e) => !final(self).live() && (match spec_parse_zones(vms@) {
                        Ok(_) => false,
                        Err(de) => e == SyncError::BadSnapshot(de),
                    }),
                },
                _ => true,
            }),
            !(ev is Ready) ==> r is Ok && final(self).live() == old(self).live(),
            r matches Err(e) ==> e != SyncError::StreamClosed,
    {
        match ev {
            VminfodEvent::Ready { vms } => {
                if self.pending.is_some() {
                    match parse_zones(vms.as_str()) {
                        Ok(zones) => {
                            self.vmobjs.load_baseline(&zones);
                            match self.pending.take() {
                                Some(signal) => signal.signal(),
                                None => {},
                            }
                            Ok(())
                        },
                        Err(e) => Err(SyncError::BadSnapshot(e)),
                    }
                } else {
                    Err(SyncError::ProtocolViolation)
                }
            },
            _ => {
                self.vmobjs.apply_event(ev);
                Ok(())
            },
        }
    }
}

} // verus!
