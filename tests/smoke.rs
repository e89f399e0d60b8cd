use serde_versions::decl::{Field, RecordDecl, Shape};
use serde_versions::render::generate;
use serde_versions::value::{FieldValue, RecordValue, Value};

fn s(i: i64) -> RecordValue {
    RecordValue { fields: vec![FieldValue { name: "i".to_string(), value: Value::Int(i) }] }
}

fn s_decl() -> RecordDecl {
    RecordDecl {
        attrs: vec!["derive(Clone, Serialize, Deserialize)".to_string()],
        vis: String::new(),
        name: "S".to_string(),
        generics: String::new(),
        where_clause: String::new(),
        shape: Shape::Named(vec![Field {
            attrs: vec![],
            vis: String::new(),
            name: "i".to_string(),
            ty: "i32".to_string(),
        }]),
    }
}

#[test]
fn adds_version_field() {
    let text = generate(s_decl(), "1").unwrap();
    assert!(text.contains("struct _Sv1 {\n    version: u8,\n    i: i32,\n}\n"));
    assert!(text.contains("_Sv1 { version: 1, i: self.i, }"));
    let vs = s(11).to_versioned(1);
    assert_eq!(vs.version, 1);
    assert_eq!(vs.fields[0].value, Value::Int(11));
}

#[test]
fn single_field_round_trip() {
    let vs = s(11).to_versioned(1);
    assert_eq!(vs.version, 1);
    assert_eq!(vs.fields, vec![FieldValue { name: "i".to_string(), value: Value::Int(11) }]);
    assert_eq!(vs.into_original(), s(11));
}

#[test]
fn multi_field_round_trip() {
    let x = RecordValue {
        fields: vec![
            FieldValue { name: "i".to_string(), value: Value::Int(-4) },
            FieldValue { name: "name".to_string(), value: Value::Text("abc".to_string()) },
        ],
    };
    let expected = RecordValue {
        fields: vec![
            FieldValue { name: "i".to_string(), value: Value::Int(-4) },
            FieldValue { name: "name".to_string(), value: Value::Text("abc".to_string()) },
        ],
    };
    let w = x.to_versioned(7);
    assert_eq!(w.version, 7);
    assert_eq!(w.fields[0], FieldValue { name: "i".to_string(), value: Value::Int(-4) });
    assert_eq!(w.fields[1].value, Value::Text("abc".to_string()));
    assert_eq!(w.into_original(), expected);
}

#[test]
fn nested_record_round_trip() {
    let inner = vec![FieldValue { name: "ok".to_string(), value: Value::Bool(true) }];
    let x = RecordValue {
        fields: vec![FieldValue { name: "n".to_string(), value: Value::Record(inner) }],
    };
    let back = x.to_versioned(200).into_original();
    assert_eq!(
        back.fields[0].value,
        Value::Record(vec![FieldValue { name: "ok".to_string(), value: Value::Bool(true) }])
    );
}
