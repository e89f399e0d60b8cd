//! A record declaration, held as plain values: what the transformation reads
//! and what it writes.
use vstd::prelude::*;

verus! {

/// One named field: its attributes as written (without `#[` and `]`), the
/// text of its visibility (empty when it has none), its name and the text of
/// its type.
#[derive(Clone, Debug, PartialEq, Eq)]
pub struct Field {
    pub attrs: Vec<String>,
    pub vis: String,
    pub name: String,
    pub ty: String,
}

/// The body of a declaration.
#[derive(Clone, Debug, PartialEq, Eq)]
pub enum Shape {
    /// A struct with named fields, in order.
    Named(Vec<Field>),
    /// A tuple struct, with the text of each field's type.
    Tuple(Vec<String>),
    /// A struct with no body (`struct S;`).
    Unit,
    /// An enum.
    Enum,
    /// A union.
    Union,
}

/// A type declaration: its attributes as written (without `#[` and `]`), the
/// text of its visibility (empty when it has none), its name, the text of its
/// generic parameters and of its `where` clause (each empty when absent), and
/// its body.
#[derive(Clone, Debug, PartialEq, Eq)]
pub struct RecordDecl {
    pub attrs: Vec<String>,
    pub vis: String,
    pub name: String,
    pub generics: String,
    pub where_clause: String,
    pub shape: Shape,
}

/// A field's attributes, visibility, name and type text.
pub type FieldView = (Seq<Seq<char>>, Seq<char>, Seq<char>, Seq<char>);

/// A field as its attributes, visibility, name and type text.
pub open spec fn field_view(f: Field) -> FieldView {
    (strings_view(f.attrs@), f.vis@, f.name@, f.ty@)
}

/// The fields of a named-field body, each as attributes, visibility, name
/// and type text.
pub open spec fn fields_view(fs: Seq<Field>) -> Seq<FieldView> {
    fs.map_values(|f: Field| field_view(f))
}

/// A list of strings as character sequences.
pub open spec fn strings_view(ss: Seq<String>) -> Seq<Seq<char>> {
    ss.map_values(|s: String| s@)
}

/// The declarations that can be versioned: a struct with at least one named field.
pub open spec fn is_supported(shape: Shape) -> bool {
    match shape {
        Shape::Named(fs) => fs@.len() > 0,
        _ => false,
    }
}

/// A copy of a list of strings.
pub fn copy_strings(v: &Vec<String>) -> (r: Vec<String>)
    ensures
        strings_view(r@) == strings_view(v@),
{
    let mut r: Vec<String> = Vec::new();
    let mut i: usize = 0;
    while i < v.len()
        invariant
            i <= v@.len(),
            r@.len() == i,
            forall|j: int| 0 <= j < i ==> #[trigger] r@[j]@ == v@[j]@,
        decreases v@.len() - i,
    {
        r.push(v[i].clone());
        i = i + 1;
    }
    assert(strings_view(r@) =~= strings_view(v@));
    r
}

} // verus!
