use zonesync::cache::ZoneCache;
use zonesync::linefeed::LineBuffer;
use zonesync::shared::Vmobjs;
use zonesync::zone::{alias_changed, Changes, VminfodEvent, Zone};

fn zone(zonedid: u32, uuid: &str, alias: &str) -> Zone {
    Zone { zonedid, uuid: uuid.to_owned(), alias: alias.to_owned() }
}

fn change(path: Vec<Option<String>>) -> Changes {
    Changes { path }
}

#[test]
fn alias_changed_finds_tracked_field() {
    let changes = vec![
        change(vec![Some("uuid".to_owned())]),
        change(vec![Some("alias".to_owned()), Some("x".to_owned())]),
    ];
    assert!(alias_changed(&changes));
}

#[test]
fn alias_changed_ignores_other_fields() {
    let changes = vec![change(vec![Some("uuid".to_owned()), Some("alias".to_owned())])];
    assert!(!alias_changed(&changes));
}

#[test]
fn alias_changed_absent_first_segment_is_no_match() {
    let changes = vec![change(vec![None, Some("alias".to_owned())])];
    assert!(!alias_changed(&changes));
}

#[test]
fn alias_changed_empty_payload_is_no_match() {
    assert!(!alias_changed(&[]));
    assert!(!alias_changed(&[change(vec![])]));
}

#[test]
fn cache_upsert_then_get() {
    let mut c = ZoneCache::new();
    assert!(c.get(1).is_none());
    c.upsert(zone(1, "u-1", "a1"));
    let z = c.get(1).unwrap();
    assert_eq!(z.zonedid, 1);
    assert_eq!(z.uuid, "u-1");
    assert_eq!(z.alias, "a1");
}

#[test]
fn cache_last_write_wins_per_key() {
    let mut c = ZoneCache::new();
    c.upsert(zone(1, "u-old", "a-old"));
    c.upsert(zone(1, "u-new", "a-new"));
    let z = c.get(1).unwrap();
    assert_eq!(z.uuid, "u-new");
    assert_eq!(z.alias, "a-new");
}

#[test]
fn modify_without_tracked_field_leaves_record_unchanged() {
    let mut c = ZoneCache::new();
    c.upsert(zone(5, "u-5", "web5"));
    let ev = VminfodEvent::Modify {
        vm: zone(5, "u-5-new", "web5-new"),
        changes: vec![change(vec![Some("state".to_owned())])],
    };
    c.apply_event(ev);
    let z = c.get(5).unwrap();
    assert_eq!(z.uuid, "u-5");
    assert_eq!(z.alias, "web5");
}

#[test]
fn modify_with_tracked_field_replaces_record_wholesale() {
    let mut c = ZoneCache::new();
    c.upsert(zone(5, "u-5", "web5"));
    let ev = VminfodEvent::Modify {
        vm: zone(5, "u-5-new", "web5-new"),
        changes: vec![change(vec![Some("state".to_owned())]), change(vec![Some(
            "alias".to_owned(),
        )])],
    };
    c.apply_event(ev);
    let z = c.get(5).unwrap();
    assert_eq!(z.uuid, "u-5-new");
    assert_eq!(z.alias, "web5-new");
}

#[test]
fn delete_never_removes_an_entry() {
    let mut c = ZoneCache::new();
    c.upsert(zone(2, "u-2", "a2"));
    c.apply_event(VminfodEvent::Delete { vm: zone(2, "u-2", "a2") });
    let z = c.get(2).unwrap();
    assert_eq!(z.uuid, "u-2");
}

#[test]
fn bulk_load_later_duplicate_wins() {
    let mut c = ZoneCache::new();
    let zones = vec![zone(1, "u-first", "a"), zone(2, "u-2", "b"), zone(1, "u-second", "c")];
    c.bulk_load(&zones);
    assert_eq!(c.get(1).unwrap().uuid, "u-second");
    assert_eq!(c.get(2).unwrap().uuid, "u-2");
}

#[test]
fn load_baseline_replaces_everything() {
    let mut c = ZoneCache::new();
    c.upsert(zone(9, "u-9", "gone"));
    c.load_baseline(&vec![zone(1, "u-1", "a")]);
    assert!(c.get(9).is_none());
    assert_eq!(c.get(1).unwrap().uuid, "u-1");
}

#[test]
fn shared_cache_round_trip() {
    let v = Vmobjs::new();
    let v2 = v.clone_handle();
    assert!(v.get(1).is_none());
    v.upsert(zone(1, "u-1", "a1"));
    let z = v2.get(1).unwrap();
    assert_eq!(z.zonedid, 1);
    assert_eq!(z.uuid, "u-1");
    assert_eq!(z.alias, "a1");
}

#[test]
fn line_buffer_reassembles_split_chunks() {
    let mut lb = LineBuffer::new();
    lb.feed(b"{\"a\":1}\n{\"b\"");
    let first = lb.next_line().unwrap();
    assert_eq!(first, b"{\"a\":1}".to_vec());
    assert!(lb.next_line().is_none());
    lb.feed(b":2}\n");
    let second = lb.next_line().unwrap();
    assert_eq!(second, b"{\"b\":2}".to_vec());
    assert!(lb.next_line().is_none());
}

#[test]
fn line_buffer_hands_out_empty_lines() {
    let mut lb = LineBuffer::new();
    lb.feed(b"\nx\n");
    assert_eq!(lb.next_line().unwrap(), Vec::<u8>::new());
    assert_eq!(lb.next_line().unwrap(), b"x".to_vec());
    assert!(lb.next_line().is_none());
}
