use serde_versions::decl::{Field, RecordDecl, Shape};
use serde_versions::literal::{parse_version, version_with_argument};
use serde_versions::naming::{decimal_text, versioned_name};
use serde_versions::transform::{version, VersionError};

fn field(n: &str, t: &str) -> Field {
    Field { attrs: vec![], vis: String::new(), name: n.to_string(), ty: t.to_string() }
}

fn decl(name: &str, shape: Shape) -> RecordDecl {
    RecordDecl {
        attrs: vec!["derive(Clone, Serialize, Deserialize)".to_string()],
        vis: String::new(),
        name: name.to_string(),
        generics: String::new(),
        where_clause: String::new(),
        shape,
    }
}

#[test]
fn names_follow_convention() {
    assert_eq!(versioned_name("S", 3), "_Sv3");
    assert_eq!(versioned_name("S", 0), "_Sv0");
    assert_eq!(versioned_name("Point", 42), "_Pointv42");
    assert_eq!(versioned_name("S", 255), "_Sv255");
    assert_eq!(decimal_text(100), "100");
    assert_eq!(decimal_text(9), "9");
}

#[test]
fn names_are_distinct() {
    assert_ne!(versioned_name("S", 1), versioned_name("S", 2));
    assert_ne!(versioned_name("Sv1", 2), versioned_name("S", 12));
    assert_eq!(versioned_name("S", 1), versioned_name("S", 1));
}

#[test]
fn wrapper_has_tag_then_fields() {
    let d = decl("S", Shape::Named(vec![field("i", "i32")]));
    let b = version(d, 1).unwrap();
    assert_eq!(b.wrapper.name, "_Sv1");
    assert_eq!(b.wrapper.shape, Shape::Named(vec![field("version", "u8"), field("i", "i32")]));
    assert_eq!(b.wrapper.attrs, vec!["derive(Clone, Serialize, Deserialize)".to_string()]);
    assert_eq!(b.original.name, "S");
    assert_eq!(b.original.shape, Shape::Named(vec![field("i", "i32")]));
    assert_eq!(
        b.original.attrs,
        vec![
            "derive(Clone, Serialize, Deserialize)".to_string(),
            "serde(into = \"_Sv1\", from = \"_Sv1\")".to_string(),
        ]
    );
}

#[test]
fn multi_field_wrapper() {
    let d = decl("R", Shape::Named(vec![field("i", "i64"), field("name", "String")]));
    let b = version(d, 7).unwrap();
    assert_eq!(b.wrapper.name, "_Rv7");
    assert_eq!(
        b.wrapper.shape,
        Shape::Named(vec![field("version", "u8"), field("i", "i64"), field("name", "String")])
    );
}

#[test]
fn generics_are_kept() {
    let mut d = decl("G", Shape::Named(vec![field("t", "T")]));
    d.generics = "<T>".to_string();
    let b = version(d, 2).unwrap();
    assert_eq!(b.wrapper.generics, "<T>");
    assert_eq!(b.original.generics, "<T>");
}

#[test]
fn visibility_and_field_attributes_are_kept() {
    let mut d = decl("P", Shape::Named(vec![]));
    d.vis = "pub".to_string();
    d.where_clause = "where T: Clone".to_string();
    let f = Field {
        attrs: vec!["serde(rename = \"x\")".to_string()],
        vis: "pub(crate)".to_string(),
        name: "i".to_string(),
        ty: "i32".to_string(),
    };
    d.shape = Shape::Named(vec![f.clone()]);
    let b = version(d, 4).unwrap();
    assert_eq!(b.original.vis, "pub");
    assert_eq!(b.wrapper.vis, "pub");
    assert_eq!(b.original.where_clause, "where T: Clone");
    assert_eq!(b.wrapper.where_clause, "where T: Clone");
    assert_eq!(b.original.shape, Shape::Named(vec![f.clone()]));
    assert_eq!(b.wrapper.shape, Shape::Named(vec![field("version", "u8"), f]));
}

#[test]
fn bracketed_arguments_are_refused() {
    assert_eq!(parse_version("(1)"), Err(VersionError::MalformedVersionArgument));
    assert_eq!(parse_version("[1]"), Err(VersionError::MalformedVersionArgument));
    assert_eq!(parse_version("1}"), Err(VersionError::MalformedVersionArgument));
    let deep = "(".repeat(1_000_000) + &")".repeat(1_000_000);
    assert_eq!(parse_version(&deep), Err(VersionError::MalformedVersionArgument));
}

#[test]
fn unsupported_shapes_are_refused() {
    for shape in vec![
        Shape::Enum,
        Shape::Union,
        Shape::Unit,
        Shape::Tuple(vec!["i32".to_string()]),
        Shape::Named(vec![]),
    ] {
        assert_eq!(version(decl("S", shape), 1), Err(VersionError::UnsupportedDeclarationKind));
    }
}

#[test]
fn version_argument_is_read() {
    assert_eq!(parse_version("3"), Ok(3));
    assert_eq!(parse_version("0x10"), Ok(16));
    assert_eq!(parse_version("1_0"), Ok(10));
    assert_eq!(parse_version("abc"), Err(VersionError::MalformedVersionArgument));
    assert_eq!(parse_version("256"), Err(VersionError::MalformedVersionArgument));
    assert_eq!(parse_version("-1"), Err(VersionError::MalformedVersionArgument));
    assert_eq!(parse_version(""), Err(VersionError::MalformedVersionArgument));
}

#[test]
fn argument_errors_come_first() {
    let d = decl("S", Shape::Enum);
    assert_eq!(version_with_argument(d, "x"), Err(VersionError::MalformedVersionArgument));
    let d = decl("S", Shape::Enum);
    assert_eq!(version_with_argument(d, "1"), Err(VersionError::UnsupportedDeclarationKind));
    let d = decl("S", Shape::Named(vec![field("i", "i32")]));
    assert_eq!(version_with_argument(d, "3").unwrap().wrapper.name, "_Sv3");
}
