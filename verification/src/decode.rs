//! Decoding the wire format: one JSON object per line, tagged by a `type`
//! member, with the payload members `vms` (a JSON-encoded array of zone
//! records carried as a string), `vm` (a zone record) and `changes` (a list
//! of changed paths).
//!
//! serde_json parses the text; which members an event carries, and how they
//! become records and change paths, is decided here and verified. What the
//! parser finds in a given text is a function of that text alone, so each
//! trusted accessor names its result (`json_member_string` and the like), and
//! the public decoders' contracts pin their whole result over those names:
//! `decode_event` returns exactly `spec_decode_event(line@)`, success and
//! failure included. A malformed line is fatal to the pipeline: the cache's
//! input cannot be trusted past it, so a decode error is surfaced, never
//! skipped.

use vstd::prelude::*;
use crate::zone::{changes_seq_view, zones_seq_view, Changes, ChangesView, EventView, VminfodEvent, Zone, ZoneView};

verus! {

/// Why a wire line or a `Ready` payload was rejected.
#[derive(Debug, PartialEq, Eq, Structural, Clone, Copy)]
pub enum DecodeError {
    /// The text is not valid JSON.
    Syntax,
    /// The JSON is valid but does not have the event schema.
    Schema,
}

/// Whether the text is one valid JSON value.
pub uninterp spec fn json_text_valid(text: Seq<char>) -> bool;

/// The string member of the text's top-level object under a key, if the text
/// is an object with a string there.
pub uninterp spec fn json_member_string(text: Seq<char>, key: Seq<char>) -> Option<Seq<char>>;

/// The unsigned-integer member of the text's top-level object under a key.
pub uninterp spec fn json_member_u64(text: Seq<char>, key: Seq<char>) -> Option<u64>;

/// The member of the text's top-level object under a key, re-encoded as JSON
/// text.
pub uninterp spec fn json_member_text(text: Seq<char>, key: Seq<char>) -> Option<Seq<char>>;

/// The length of the text's top-level array, if the text is an array.
pub uninterp spec fn json_array_len(text: Seq<char>) -> Option<usize>;

/// The element of the text's top-level array at an index, re-encoded as JSON
/// text.
pub uninterp spec fn json_element_text(text: Seq<char>, i: usize) -> Option<Seq<char>>;

/// The element of the text's top-level array at an index, where the schema
/// allows a string or null: `Some(None)` for null, `Some(Some(s))` for a
/// string, `None` for anything else.
pub uninterp spec fn json_element_string(text: Seq<char>, i: usize) -> Option<Option<Seq<char>>>;

/// An optional segment as contracts see it.
pub open spec fn seg_view(o: Option<String>) -> Option<Seq<char>> {
    match o {
        Some(s) => Some(s@),
        None => None,
    }
}

/// Relies on `serde_json::from_str::<Value>`: whether the text parses as one
/// JSON value; a function of the text alone.
#[verifier::external_body]
fn json_valid(text: &str) -> (r: bool)
    ensures
        r == json_text_valid(text@),
{
    serde_json::from_str::<serde_json::Value>(text).is_ok()
}

/// Relies on `serde_json::from_str`, `Value::get` and `Value::as_str`: the
/// string member of the top-level object under the key; a function of the
/// text and key alone.
#[verifier::external_body]
fn member_string_of(text: &str, key: &str) -> (r: Option<String>)
    ensures
        match r {
            Some(s) => json_member_string(text@, key@) == Some(s@),
            None => json_member_string(text@, key@) is None,
        },
{
    match serde_json::from_str::<serde_json::Value>(text) {
        Ok(v) => match v.get(key) {
            Some(f) => match f.as_str() {
                Some(s) => Some(s.to_owned()),
                None => None,
            },
            None => None,
        },
        Err(_) => None,
    }
}

/// Relies on `serde_json::from_str`, `Value::get` and `Value::as_u64`: the
/// unsigned-integer member of the top-level object under the key; a function
/// of the text and key alone.
#[verifier::external_body]
fn member_u64_of(text: &str, key: &str) -> (r: Option<u64>)
    ensures
        r == json_member_u64(text@, key@),
{
    match serde_json::from_str::<serde_json::Value>(text) {
        Ok(v) => match v.get(key) {
            Some(f) => f.as_u64(),
            None => None,
        },
        Err(_) => None,
    }
}

/// Relies on `serde_json::from_str`, `Value::get` and `Value`'s JSON
/// serialization (`to_string`): the member re-encoded as JSON text. A
/// function of the text and key alone: serde_json keeps object members
/// ordered, so re-encoding a parsed value is deterministic.
#[verifier::external_body]
fn member_text_of(text: &str, key: &str) -> (r: Option<String>)
    ensures
        match r {
            Some(s) => json_member_text(text@, key@) == Some(s@),
            None => json_member_text(text@, key@) is None,
        },
{
    match serde_json::from_str::<serde_json::Value>(text) {
        Ok(v) => match v.get(key) {
            Some(f) => Some(f.to_string()),
            None => None,
        },
        Err(_) => None,
    }
}

/// Relies on `serde_json::from_str` and `Value::as_array`: the length of the
/// top-level array; a function of the text alone.
#[verifier::external_body]
fn array_len_of(text: &str) -> (r: Option<usize>)
    ensures
        r == json_array_len(text@),
{
    match serde_json::from_str::<serde_json::Value>(text) {
        Ok(v) => match v.as_array() {
            Some(a) => Some(a.len()),
            None => None,
        },
        Err(_) => None,
    }
}

/// Relies on `serde_json::from_str`, `Value::get` and `Value`'s JSON
/// serialization: the array element re-encoded as JSON text; deterministic as
/// in `member_text_of`.
#[verifier::external_body]
fn element_text_of(text: &str, i: usize) -> (r: Option<String>)
    ensures
        match r {
            Some(s) => json_element_text(text@, i) == Some(s@),
            None => json_element_text(text@, i) is None,
        },
{
    match serde_json::from_str::<serde_json::Value>(text) {
        Ok(v) => match v.get(i) {
            Some(f) => Some(f.to_string()),
            None => None,
        },
        Err(_) => None,
    }
}

/// Relies on `serde_json::from_str`, `Value::get`, `Value::is_null` and
/// `Value::as_str`: the string-or-null array element at the index; a function
/// of the text and index alone.
#[verifier::external_body]
fn element_string_of(text: &str, i: usize) -> (r: Option<Option<String>>)
    ensures
        match r {
            Some(seg) => json_element_string(text@, i) == Some(seg_view(seg)),
            None => json_element_string(text@, i) is None,
        },
{
    match serde_json::from_str::<serde_json::Value>(text) {
        Ok(v) => match v.get(i) {
            Some(f) => if f.is_null() {
                Some(None)
            } else {
                match f.as_str() {
                    Some(s) => Some(Some(s.to_owned())),
                    None => None,
                }
            },
            None => None,
        },
        Err(_) => None,
    }
}

/// A zone record from its JSON text: `zonedid` an unsigned integer no wider
/// than a zone id, `uuid` and `alias` strings. Anything else is a schema
/// error.
pub open spec fn spec_decode_zone(t: Seq<char>) -> Result<ZoneView, DecodeError> {
    match json_member_u64(t, "zonedid"@) {
        Some(n) => if n <= u32::MAX as u64 {
            match json_member_string(t, "uuid"@) {
                Some(u) => match json_member_string(t, "alias"@) {
                    Some(a) => Ok(ZoneView { zonedid: n as u32, uuid: u, alias: a }),
                    None => Err(DecodeError::Schema),
                },
                None => Err(DecodeError::Schema),
            }
        } else {
            Err(DecodeError::Schema)
        },
        None => Err(DecodeError::Schema),
    }
}

/// The zone decoded from the i-th element of an array's text.
pub open spec fn element_zone(text: Seq<char>, i: int) -> Result<ZoneView, DecodeError> {
    match json_element_text(text, i as usize) {
        Some(zt) => spec_decode_zone(zt),
        None => Err(DecodeError::Schema),
    }
}

/// The `Ready` payload decoded from its text: a JSON array of zone records,
/// or why not — `Syntax` when the text is not JSON, `Schema` when it is not
/// an array of records with the zone fields.
pub open spec fn spec_parse_zones(text: Seq<char>) -> Result<Seq<ZoneView>, DecodeError> {
    if !json_text_valid(text) {
        Err(DecodeError::Syntax)
    } else {
        match json_array_len(text) {
            Some(n) => if forall|i: int| 0 <= i < n ==> (#[trigger] element_zone(text, i)) is Ok {
                Ok(
                    Seq::new(
                        n as nat,
                        |i: int|
                            match element_zone(text, i) {
                                Ok(z) => z,
                                Err(_) => ZoneView {
                                    zonedid: 0,
                                    uuid: Seq::empty(),
                                    alias: Seq::empty(),
                                },
                            },
                    ),
                )
            } else {
                Err(DecodeError::Schema)
            },
            None => Err(DecodeError::Schema),
        }
    }
}

/// The string-or-null segment at index j of a path array's text.
pub open spec fn path_segment(t: Seq<char>, j: int) -> Option<Option<Seq<char>>> {
    json_element_string(t, j as usize)
}

/// One changed path from its JSON text: an object with a `path` array whose
/// elements are strings or null; null stands for an absent segment.
pub open spec fn spec_decode_change(t: Seq<char>) -> Result<ChangesView, DecodeError> {
    match json_member_text(t, "path"@) {
        Some(pt) => match json_array_len(pt) {
            Some(n) => if forall|j: int| 0 <= j < n ==> (#[trigger] path_segment(pt, j)) is Some {
                Ok(
                    ChangesView {
                        path: Seq::new(
                            n as nat,
                            |j: int|
                                match path_segment(pt, j) {
                                    Some(seg) => seg,
                                    None => None,
                                },
                        ),
                    },
                )
            } else {
                Err(DecodeError::Schema)
            },
            None => Err(DecodeError::Schema),
        },
        None => Err(DecodeError::Schema),
    }
}

/// The change decoded from the i-th element of a `changes` array's text.
pub open spec fn element_change(text: Seq<char>, i: int) -> Result<ChangesView, DecodeError> {
    match json_element_text(text, i as usize) {
        Some(ct) => spec_decode_change(ct),
        None => Err(DecodeError::Schema),
    }
}

/// A `Modify` event's `changes` payload from its JSON text: an array of
/// changed paths.
pub open spec fn spec_decode_changes(text: Seq<char>) -> Result<Seq<ChangesView>, DecodeError> {
    match json_array_len(text) {
        Some(n) => if forall|i: int| 0 <= i < n ==> (#[trigger] element_change(text, i)) is Ok {
            Ok(
                Seq::new(
                    n as nat,
                    |i: int|
                        match element_change(text, i) {
                            Ok(c) => c,
                            Err(_) => ChangesView { path: Seq::empty() },
                        },
                ),
            )
        } else {
            Err(DecodeError::Schema)
        },
        None => Err(DecodeError::Schema),
    }
}

/// One wire line as an event. The object's `type` member names the variant;
/// `ready` carries `vms`, `create` and `delete` carry `vm`, and `modify`
/// carries `vm` and `changes`. Anything else is rejected, so a new event kind
/// can never be silently ignored.
pub open spec fn spec_decode_event(line: Seq<char>) -> Result<EventView, DecodeError> {
    if !json_text_valid(line) {
        Err(DecodeError::Syntax)
    } else {
        match json_member_string(line, "type"@) {
            Some(kind) => if kind == "ready"@ {
                match json_member_string(line, "vms"@) {
                    Some(vms) => Ok(EventView::Ready { vms }),
                    None => Err(DecodeError::Schema),
                }
            } else if kind == "create"@ || kind == "delete"@ || kind == "modify"@ {
                match json_member_text(line, "vm"@) {
                    Some(vt) => match spec_decode_zone(vt) {
                        Ok(vm) => if kind == "create"@ {
                            Ok(EventView::Create { vm })
                        } else if kind == "delete"@ {
                            Ok(EventView::Delete { vm })
                        } else {
                            match json_member_text(line, "changes"@) {
                                Some(ct) => match spec_decode_changes(ct) {
                                    Ok(cs) => Ok(EventView::Modify { vm, changes: cs }),
                                    Err(e) => Err(e),
                                },
                                None => Err(DecodeError::Schema),
                            }
                        },
                        Err(e) => Err(e),
                    },
                    None => Err(DecodeError::Schema),
                }
            } else {
                Err(DecodeError::Schema)
            },
            None => Err(DecodeError::Schema),
        }
    }
}

/// A decoded zone, as contracts see it.
pub open spec fn zone_result_view(r: Result<Zone, DecodeError>) -> Result<ZoneView, DecodeError> {
    match r {
        Ok(z) => Ok(z@),
        Err(e) => Err(e),
    }
}

/// A decoded zone list, as contracts see it.
pub open spec fn zones_result_view(r: Result<Vec<Zone>, DecodeError>) -> Result<
    Seq<ZoneView>,
    DecodeError,
> {
    match r {
        Ok(v) => Ok(zones_seq_view(v@)),
        Err(e) => Err(e),
    }
}

/// A decoded change, as contracts see it.
pub open spec fn change_result_view(r: Result<Changes, DecodeError>) -> Result<
    ChangesView,
    DecodeError,
> {
    match r {
        Ok(c) => Ok(c@),
        Err(e) => Err(e),
    }
}

/// A decoded change list, as contracts see it.
pub open spec fn changes_result_view(r: Result<Vec<Changes>, DecodeError>) -> Result<
    Seq<ChangesView>,
    DecodeError,
> {
    match r {
        Ok(v) => Ok(changes_seq_view(v@)),
        Err(e) => Err(e),
    }
}

/// A decoded event, as contracts see it.
pub open spec fn event_result_view(r: Result<VminfodEvent, DecodeError>) -> Result<
    EventView,
    DecodeError,
> {
    match r {
        Ok(ev) => Ok(ev@),
        Err(e) => Err(e),
    }
}

/// A zone record from its JSON text: exactly `spec_decode_zone`.
fn decode_zone(ztext: &str) -> (r: Result<Zone, DecodeError>)
    ensures
        zone_result_view(r) == spec_decode_zone(ztext@),
{
    let zonedid64 = match member_u64_of(ztext, "zonedid") {
        Some(n) => n,
        None => {
            return Err(DecodeError::Schema);
        },
    };
    if zonedid64 > u32::MAX as u64 {
        return Err(DecodeError::Schema);
    }
    let uuid = match member_string_of(ztext, "uuid") {
        Some(s) => s,
        None => {
            return Err(DecodeError::Schema);
        },
    };
    let alias = match member_string_of(ztext, "alias") {
        Some(s) => s,
        None => {
            return Err(DecodeError::Schema);
        },
    };
    Ok(Zone { zonedid: zonedid64 as u32, uuid, alias })
}

/// One changed path from its JSON text: exactly `spec_decode_change`.
fn decode_change(ctext: &str) -> (r: Result<Changes, DecodeError>)
    ensures
        change_result_view(r) == spec_decode_change(ctext@),
{
    let ptext = match member_text_of(ctext, "path") {
        Some(t) => t,
        None => {
            return Err(DecodeError::Schema);
        },
    };
    let n = match array_len_of(ptext.as_str()) {
        Some(n) => n,
        None => {
            return Err(DecodeError::Schema);
        },
    };
    let mut path: Vec<Option<String>> = Vec::new();
    for j in 0..n
        invariant
            json_member_text(ctext@, "path"@) == Some(ptext@),
            json_array_len(ptext@) == Some(n),
            path@.len() == j,
            forall|k: int| 0 <= k < j ==> #[trigger] path_segment(ptext@, k) == Some(
                seg_view(path@[k]),
            ),
    {
        match element_string_of(ptext.as_str(), j) {
            Some(seg) => {
                proof {
                    assert(path_segment(ptext@, j as int) == Some(seg_view(seg)));
                }
                path.push(seg);
            },
            None => {
                proof {
                    assert(path_segment(ptext@, j as int) is None);
                }
                return Err(DecodeError::Schema);
            },
        }
    }
    let r = Changes { path };
    proof {
        let spec_path = Seq::new(
            n as nat,
            |j: int|
                match path_segment(ptext@, j) {
                    Some(seg) => seg,
                    None => None,
                },
        );
        assert(r@.path =~= spec_path);
    }
    Ok(r)
}

/// A `Modify` event's `changes` payload from its JSON text: exactly
/// `spec_decode_changes`.
fn decode_changes(text: &str) -> (r: Result<Vec<Changes>, DecodeError>)
    ensures
        changes_result_view(r) == spec_decode_changes(text@),
{
    let n = match array_len_of(text) {
        Some(n) => n,
        None => {
            return Err(DecodeError::Schema);
        },
    };
    let mut changes: Vec<Changes> = Vec::new();
    for i in 0..n
        invariant
            json_array_len(text@) == Some(n),
            changes@.len() == i,
            forall|k: int| 0 <= k < i ==> #[trigger] element_change(text@, k) == Ok::<ChangesView, DecodeError>(changes@[k]@),
    {
        let etext = match element_text_of(text, i) {
            Some(t) => t,
            None => {
                proof {
                    assert(!(element_change(text@, i as int) is Ok));
                }
                return Err(DecodeError::Schema);
            },
        };
        match decode_change(etext.as_str()) {
            Ok(c) => {
                proof {
                    assert(element_change(text@, i as int) == Ok::<ChangesView, DecodeError>(c@));
                }
                changes.push(c);
            },
            Err(e) => {
                proof {
                    assert(!(element_change(text@, i as int) is Ok));
                    assert(e == DecodeError::Schema);
                }
                return Err(e);
            },
        }
    }
    let ghost spec_seq = Seq::new(
        n as nat,
        |i: int|
            match element_change(text@, i) {
                Ok(c) => c,
                Err(_) => ChangesView { path: Seq::empty() },
            },
    );
    proof {
        assert(changes_seq_view(changes@) =~= spec_seq);
    }
    Ok(changes)
}

/// The `Ready` payload: a JSON array of zone records, decoded from the
/// doubly-encoded `vms` string it arrives in. Returns exactly
/// `spec_parse_zones` of the text: `Ok` if and only if the text is a JSON
/// array of well-formed zone records, `Syntax`/`Schema` otherwise.
pub fn parse_zones(raw: &str) -> (r: Result<Vec<Zone>, DecodeError>)
    ensures
        zones_result_view(r) == spec_parse_zones(raw@),
{
    if !json_valid(raw) {
        return Err(DecodeError::Syntax);
    }
    let n = match array_len_of(raw) {
        Some(n) => n,
        None => {
            return Err(DecodeError::Schema);
        },
    };
    let mut zones: Vec<Zone> = Vec::new();
    for i in 0..n
        invariant
            json_text_valid(raw@),
            json_array_len(raw@) == Some(n),
            zones@.len() == i,
            forall|k: int| 0 <= k < i ==> #[trigger] element_zone(raw@, k) == Ok::<ZoneView, DecodeError>(zones@[k]@),
    {
        let ztext = match element_text_of(raw, i) {
            Some(t) => t,
            None => {
                proof {
                    assert(!(element_zone(raw@, i as int) is Ok));
                }
                return Err(DecodeError::Schema);
            },
        };
        match decode_zone(ztext.as_str()) {
            Ok(z) => {
                proof {
                    assert(element_zone(raw@, i as int) == Ok::<ZoneView, DecodeError>(z@));
                }
                zones.push(z);
            },
            Err(e) => {
                proof {
                    assert(!(element_zone(raw@, i as int) is Ok));
                    assert(e == DecodeError::Schema);
                }
                return Err(e);
            },
        }
    }
    let ghost spec_seq = Seq::new(
        n as nat,
        |i: int|
            match element_zone(raw@, i) {
                Ok(z) => z,
                Err(_) => ZoneView { zonedid: 0, uuid: Seq::empty(), alias: Seq::empty() },
            },
    );
    proof {
        assert(zones_seq_view(zones@) =~= spec_seq);
    }
    Ok(zones)
}

/// One wire line into an event. Returns exactly `spec_decode_event` of the
/// line: `Ok` if and only if the line is a JSON object whose `type` names a
/// variant and whose payload members have that variant's shape, `Syntax` or
/// `Schema` otherwise, so a line can neither be skipped nor misread.
pub fn decode_event(line: &str) -> (r: Result<VminfodEvent, DecodeError>)
    ensures
        event_result_view(r) == spec_decode_event(line@),
{
    if !json_valid(line) {
        return Err(DecodeError::Syntax);
    }
    let kind = match member_string_of(line, "type") {
        Some(k) => k,
        None => {
            return Err(DecodeError::Schema);
        },
    };
    if kind == "ready".to_owned() {
        match member_string_of(line, "vms") {
            Some(vms) => Ok(VminfodEvent::Ready { vms }),
            None => Err(DecodeError::Schema),
        }
    } else if kind == "create".to_owned() || kind == "delete".to_owned() || kind
        == "modify".to_owned() {
        let vtext = match member_text_of(line, "vm") {
            Some(t) => t,
            None => {
                return Err(DecodeError::Schema);
            },
        };
        let vm = match decode_zone(vtext.as_str()) {
            Ok(z) => z,
            Err(e) => {
                return Err(e);
            },
        };
        if kind == "create".to_owned() {
            Ok(VminfodEvent::Create { vm })
        } else if kind == "delete".to_owned() {
            Ok(VminfodEvent::Delete { vm })
        } else {
            let ctext = match member_text_of(line, "changes") {
                Some(t) => t,
                None => {
                    return Err(DecodeError::Schema);
                },
            };
            match decode_changes(ctext.as_str()) {
                Ok(changes) => Ok(VminfodEvent::Modify { vm, changes }),
                Err(e) => Err(e),
            }
        }
    } else {
        Err(DecodeError::Schema)
    }
}

} // verus!
