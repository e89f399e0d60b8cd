use serde_versions::value::{FieldValue, RecordValue, Value, VersionedValue};

fn s(i: i64) -> RecordValue {
    RecordValue { fields: vec![FieldValue { name: "i".to_string(), value: Value::Int(i) }] }
}

#[test]
fn entries_are_flat() {
    let e = s(11).to_versioned(1).into_entries();
    assert_eq!(e.len(), 2);
    assert_eq!(e[0], FieldValue { name: "version".to_string(), value: Value::UInt(1) });
    assert_eq!(e[1], FieldValue { name: "i".to_string(), value: Value::Int(11) });
}

#[test]
fn entries_read_back_to_original() {
    let e = s(11).to_versioned(1).into_entries();
    let w = VersionedValue::from_entries(e).unwrap();
    assert_eq!(w.version, 1);
    let x = w.into_original();
    assert_eq!(x, s(11));
    assert!(x.fields.iter().all(|f| f.name != "version"));
}

#[test]
fn entries_from_older_version_read_back() {
    let e = vec![
        FieldValue { name: "version".to_string(), value: Value::UInt(0) },
        FieldValue { name: "i".to_string(), value: Value::Int(5) },
    ];
    let w = VersionedValue::from_entries(e).unwrap();
    assert_eq!(w.version, 0);
    assert_eq!(w.into_original().to_versioned(3).version, 3);
}

#[test]
fn entries_without_tag_are_refused() {
    assert!(VersionedValue::from_entries(vec![]).is_none());
    let e = vec![FieldValue { name: "i".to_string(), value: Value::Int(11) }];
    assert!(VersionedValue::from_entries(e).is_none());
    let e = vec![FieldValue { name: "version".to_string(), value: Value::UInt(256) }];
    assert!(VersionedValue::from_entries(e).is_none());
    let e = vec![FieldValue { name: "version".to_string(), value: Value::Int(1) }];
    assert!(VersionedValue::from_entries(e).is_none());
}
