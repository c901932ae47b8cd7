//! Zone records, lifecycle events, and the tracked-field change detector.

use vstd::prelude::*;

verus! {

/// A numeric zone id: the cache's key.
pub type Zonedid = u32;

/// A zone record: a stable numeric id plus the descriptive fields the cache
/// carries. The record is treated as an atomic unit; the synchronizer only
/// ever replaces whole records, never individual fields.
#[derive(Debug)]
pub struct Zone {
    /// Numeric zone id; the cache key.
    pub zonedid: Zonedid,
    /// Globally unique textual identifier of the zone.
    pub uuid: String,
    /// The tracked field: a change to it forces a cache update.
    pub alias: String,
}

impl Zone {
    /// An owned copy, equal to `self` field for field.
    pub fn duplicate(&self) -> (r: Zone)
        ensures
            r == *self,
    {
        Zone { zonedid: self.zonedid, uuid: self.uuid.clone(), alias: self.alias.clone() }
    }
}

/// A zone record as contracts see it: the id and the texts of its fields.
pub ghost struct ZoneView {
    pub zonedid: Zonedid,
    pub uuid: Seq<char>,
    pub alias: Seq<char>,
}

impl View for Zone {
    type V = ZoneView;

    open spec fn view(&self) -> ZoneView {
        ZoneView { zonedid: self.zonedid, uuid: self.uuid@, alias: self.alias@ }
    }
}

/// One changed path from a `Modify` event's diff payload: an ordered list of
/// optional path segments. An absent first segment never matches any tracked
/// field.
#[derive(Debug)]
pub struct Changes {
    pub path: Vec<Option<String>>,
}

/// A changed path as contracts see it: the segment texts, in order.
pub ghost struct ChangesView {
    pub path: Seq<Option<Seq<char>>>,
}

impl View for Changes {
    type V = ChangesView;

    open spec fn view(&self) -> ChangesView {
        ChangesView {
            path: Seq::new(
                self.path@.len(),
                |j: int|
                    match self.path@[j] {
                        Some(s) => Some(s@),
                        None => None,
                    },
            ),
        }
    }
}

/// A lifecycle event from the zone event service.
#[derive(Debug)]
pub enum VminfodEvent {
    /// The one-per-stream baseline: `vms` is a JSON-encoded array of zone
    /// records, carried as a string to be decoded again.
    Ready { vms: String },
    Create { vm: Zone },
    Modify { vm: Zone, changes: Vec<Changes> },
    Delete { vm: Zone },
}

/// A zone list as contracts see it.
pub open spec fn zones_seq_view(v: Seq<Zone>) -> Seq<ZoneView> {
    Seq::new(v.len(), |i: int| v[i]@)
}

/// A change list as contracts see it.
pub open spec fn changes_seq_view(v: Seq<Changes>) -> Seq<ChangesView> {
    Seq::new(v.len(), |i: int| v[i]@)
}

/// An event as contracts see it.
pub ghost enum EventView {
    Ready { vms: Seq<char> },
    Create { vm: ZoneView },
    Modify { vm: ZoneView, changes: Seq<ChangesView> },
    Delete { vm: ZoneView },
}

impl View for VminfodEvent {
    type V = EventView;

    open spec fn view(&self) -> EventView {
        match self {
            VminfodEvent::Ready { vms } => EventView::Ready { vms: vms@ },
            VminfodEvent::Create { vm } => EventView::Create { vm: vm@ },
            VminfodEvent::Modify { vm, changes } => EventView::Modify {
                vm: vm@,
                changes: changes_seq_view(changes@),
            },
            VminfodEvent::Delete { vm } => EventView::Delete { vm: vm@ },
        }
    }
}

/// The name of the tracked field.
pub open spec fn tracked_field_name() -> Seq<char> {
    "alias"@
}

/// Whether one change path names the tracked field: its first segment is
/// present and equals the tracked field's name.
pub open spec fn change_is_tracked(c: Changes) -> bool {
    c.path@.len() > 0 && (c.path@[0] matches Some(seg) && seg@ == tracked_field_name())
}

/// Whether a diff payload contains at least one change to the tracked field.
pub open spec fn spec_alias_changed(cs: Seq<Changes>) -> bool {
    exists|i: int| 0 <= i < cs.len() && change_is_tracked(cs[i])
}

/// Search through a `Modify` event's changes payload: true iff some change
/// path has a present first segment equal to the tracked field. An absent
/// first segment is never a match.
pub fn alias_changed(changes: &[Changes]) -> (r: bool)
    ensures
        r == spec_alias_changed(changes@),
{
    let tracked_name: String = "alias".to_owned();
    let n = changes.len();
    for i in 0..n
        invariant
            n == changes@.len(),
            tracked_name@ == tracked_field_name(),
            forall|j: int| 0 <= j < i ==> !change_is_tracked(changes@[j]),
    {
        let change = &changes[i];
        if change.path.len() > 0 {
            match &change.path[0] {
                Some(seg) => {
                    if *seg == tracked_name {
                        assert(change_is_tracked(changes@[i as int]));
                        return true;
                    }
                },
                None => {},
            }
        }
    }
    false
}

} // verus!
