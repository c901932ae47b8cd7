use zonesync::decode::{decode_event, parse_zones, DecodeError};
use zonesync::zone::VminfodEvent;

#[test]
fn decode_ready_event() {
    let line = r#"{"type":"ready","vms":"[{\"zonedid\":1,\"uuid\":\"u-1\",\"alias\":\"web0\"}]"}"#;
    match decode_event(line) {
        Ok(VminfodEvent::Ready { vms }) => {
            assert_eq!(vms, r#"[{"zonedid":1,"uuid":"u-1","alias":"web0"}]"#);
        }
        other => panic!("expected Ready, got {:?}", other.is_ok()),
    }
}

#[test]
fn decode_create_event() {
    let line = r#"{"type":"create","vm":{"zonedid":7,"uuid":"u-7","alias":"db0"}}"#;
    match decode_event(line) {
        Ok(VminfodEvent::Create { vm }) => {
            assert_eq!(vm.zonedid, 7);
            assert_eq!(vm.uuid, "u-7");
            assert_eq!(vm.alias, "db0");
        }
        _ => panic!("expected Create"),
    }
}

#[test]
fn decode_delete_event() {
    let line = r#"{"type":"delete","vm":{"zonedid":9,"uuid":"u-9","alias":"old"}}"#;
    match decode_event(line) {
        Ok(VminfodEvent::Delete { vm }) => {
            assert_eq!(vm.zonedid, 9);
        }
        _ => panic!("expected Delete"),
    }
}

#[test]
fn decode_modify_event_with_tracked_change() {
    let line = r#"{"type":"modify","vm":{"zonedid":3,"uuid":"u-3","alias":"new"},"changes":[{"path":["alias"]},{"path":[null,"x"]}]}"#;
    match decode_event(line) {
        Ok(VminfodEvent::Modify { vm, changes }) => {
            assert_eq!(vm.alias, "new");
            assert_eq!(changes.len(), 2);
            assert_eq!(changes[0].path, vec![Some("alias".to_owned())]);
            assert_eq!(changes[1].path, vec![None, Some("x".to_owned())]);
        }
        _ => panic!("expected Modify"),
    }
}

#[test]
fn decode_rejects_malformed_json() {
    assert_eq!(decode_event("{not json").unwrap_err(), DecodeError::Syntax);
}

#[test]
fn decode_rejects_unknown_event_kind() {
    let line = r#"{"type":"reboot","vm":{"zonedid":1,"uuid":"u","alias":"a"}}"#;
    assert_eq!(decode_event(line).unwrap_err(), DecodeError::Schema);
}

#[test]
fn decode_rejects_missing_type() {
    let line = r#"{"vm":{"zonedid":1,"uuid":"u","alias":"a"}}"#;
    assert_eq!(decode_event(line).unwrap_err(), DecodeError::Schema);
}

#[test]
fn decode_rejects_zone_id_too_wide() {
    let line = r#"{"type":"create","vm":{"zonedid":4294967296,"uuid":"u","alias":"a"}}"#;
    assert_eq!(decode_event(line).unwrap_err(), DecodeError::Schema);
}

#[test]
fn decode_accepts_widest_zone_id() {
    let line = r#"{"type":"create","vm":{"zonedid":4294967295,"uuid":"u","alias":"a"}}"#;
    match decode_event(line) {
        Ok(VminfodEvent::Create { vm }) => assert_eq!(vm.zonedid, u32::MAX),
        _ => panic!("expected Create"),
    }
}

#[test]
fn decode_rejects_missing_alias() {
    let line = r#"{"type":"create","vm":{"zonedid":1,"uuid":"u"}}"#;
    assert_eq!(decode_event(line).unwrap_err(), DecodeError::Schema);
}

#[test]
fn decode_rejects_non_string_path_segment() {
    let line = r#"{"type":"modify","vm":{"zonedid":1,"uuid":"u","alias":"a"},"changes":[{"path":[3]}]}"#;
    assert_eq!(decode_event(line).unwrap_err(), DecodeError::Schema);
}

#[test]
fn parse_zones_reads_each_record() {
    let raw = r#"[{"zonedid":1,"uuid":"u-1","alias":"a1"},{"zonedid":2,"uuid":"u-2","alias":"a2"}]"#;
    let zones = parse_zones(raw).unwrap();
    assert_eq!(zones.len(), 2);
    assert_eq!(zones[0].zonedid, 1);
    assert_eq!(zones[0].uuid, "u-1");
    assert_eq!(zones[1].zonedid, 2);
    assert_eq!(zones[1].alias, "a2");
}

#[test]
fn parse_zones_accepts_empty_snapshot() {
    assert_eq!(parse_zones("[]").unwrap().len(), 0);
}

#[test]
fn parse_zones_rejects_non_array() {
    assert_eq!(parse_zones(r#"{"zonedid":1}"#).unwrap_err(), DecodeError::Schema);
}

#[test]
fn parse_zones_rejects_bad_json() {
    assert_eq!(parse_zones("oops").unwrap_err(), DecodeError::Syntax);
}
