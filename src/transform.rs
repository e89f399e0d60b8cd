//! The versioning transformation: from a record declaration and a version tag
//! to the annotated original and its versioned wrapper.
//!
//! The wrapper lists its fields flat: a `version: u8` field first, then every
//! field of the original in order, with the same names and types.
use vstd::prelude::*;
use vstd::string::StringExecFns;
use crate::decl::{Field, FieldView, RecordDecl, Shape, field_view, fields_view, strings_view, is_supported, copy_strings};
use crate::naming::{versioned_name, versioned_name_of, lemma_versioned_name_injective};
use crate::value::{FieldValue, RecordValue, forward, is_entries_of, names_of, lemma_fields_kept};

verus! {

/// Why a declaration could not be versioned.
#[derive(Clone, Copy, Debug, PartialEq, Eq)]
pub enum VersionError {
    /// The declaration is not a struct with at least one named field.
    UnsupportedDeclarationKind,
    /// The version argument is not an integer literal that fits in a `u8`.
    MalformedVersionArgument,
}

/// What the transformation produces.
#[derive(Clone, Debug, PartialEq, Eq)]
pub struct VersionedDecls {
    /// The original declaration with the serialization directive added.
    pub original: RecordDecl,
    /// The versioned wrapper declaration.
    pub wrapper: RecordDecl,
}

/// The tag field that leads the wrapper's field list: `version: u8`, with no
/// attributes and no visibility.
pub open spec fn version_field_view() -> FieldView {
    (Seq::empty(), Seq::empty(), seq!['v', 'e', 'r', 's', 'i', 'o', 'n'], seq!['u', '8'])
}

/// The attribute that routes serialization of the original through the
/// wrapper `w`: `serde(into = "w", from = "w")`.
pub open spec fn directive_of(w: Seq<char>) -> Seq<char> {
    "serde(into = \""@ + w + "\", from = \""@ + w + "\")"@
}

/// The named fields of a shape (empty for any other shape).
pub open spec fn named_fields(shape: Shape) -> Seq<Field> {
    match shape {
        Shape::Named(fs) => fs@,
        _ => Seq::empty(),
    }
}

/// The wrapper declaration made for `d` at version `v`.
pub open spec fn is_wrapper_of(w: RecordDecl, d: RecordDecl, v: nat) -> bool {
    &&& w.name@ == versioned_name_of(d.name@, v)
    &&& w.vis@ == d.vis@
    &&& w.generics@ == d.generics@
    &&& w.where_clause@ == d.where_clause@
    &&& strings_view(w.attrs@) == strings_view(d.attrs@)
    &&& w.shape is Named
    &&& fields_view(named_fields(w.shape)) == seq![version_field_view()] + fields_view(named_fields(d.shape))
}

/// The original declaration `o` is `d` with the directive to `w` added last.
pub open spec fn is_annotated_original(o: RecordDecl, d: RecordDecl, w: Seq<char>) -> bool {
    &&& o.name@ == d.name@
    &&& o.vis@ == d.vis@
    &&& o.generics@ == d.generics@
    &&& o.where_clause@ == d.where_clause@
    &&& o.shape == d.shape
    &&& strings_view(o.attrs@) == strings_view(d.attrs@).push(directive_of(w))
}

/// The full result of versioning `d` at `v`.
pub open spec fn is_versioning_of(b: VersionedDecls, d: RecordDecl, v: nat) -> bool {
    &&& is_wrapper_of(b.wrapper, d, v)
    &&& is_annotated_original(b.original, d, versioned_name_of(d.name@, v))
}

/// The wrapper's field list: the tag field, then a copy of each field of `fs`.
fn copy_fields_after_tag(fs: &Vec<Field>) -> (r: Vec<Field>)
    ensures
        fields_view(r@) == seq![version_field_view()] + fields_view(fs@),
{
    proof { reveal_strlit("version"); reveal_strlit("u8"); }
    let mut r: Vec<Field> = Vec::new();
    r.push(Field {
        attrs: Vec::new(),
        vis: String::new(),
        name: String::from_str("version"),
        ty: String::from_str("u8"),
    });
    assert(strings_view(r@[0].attrs@) =~= Seq::<Seq<char>>::empty());
    let mut i: usize = 0;
    while i < fs.len()
        invariant
            i <= fs@.len(),
            r@.len() == i + 1,
            field_view(r@[0]) == version_field_view(),
            forall|j: int| 0 <= j < i ==> field_view(#[trigger] r@[j + 1]) == field_view(fs@[j]),
        decreases fs@.len() - i,
    {
        let f = &fs[i];
        r.push(Field { attrs: copy_strings(&f.attrs), vis: f.vis.clone(), name: f.name.clone(), ty: f.ty.clone() });
        i = i + 1;
    }
    assert(fields_view(r@) =~= seq![version_field_view()] + fields_view(fs@)) by {
        assert forall|j: int| 0 < j < r@.len() implies field_view(r@[j]) == field_view(fs@[j - 1]) by {
            assert(field_view(r@[(j - 1) + 1]) == field_view(fs@[j - 1]));
        }
    }
    r
}

/// The serialization directive naming the wrapper `w`.
fn directive(w: &str) -> (r: String)
    ensures
        r@ == directive_of(w@),
{
    let s = String::from_str("serde(into = \"");
    let s = s.concat(w);
    let s = s.concat("\", from = \"");
    let s = s.concat(w);
    s.concat("\")")
}

/// Versions the declaration `decl` at version `tag`: the wrapper is named
/// `_<Name>v<tag>`, keeps the generics and attributes, and has a `version: u8`
/// field followed by the original's fields; the original gains the directive
/// that serializes it through the wrapper. Anything but a struct with at least
/// one named field is refused.
pub fn version(decl: RecordDecl, tag: u8) -> (r: Result<VersionedDecls, VersionError>)
    ensures
        r is Err <==> !is_supported(decl.shape),
        r is Err ==> r->Err_0 == VersionError::UnsupportedDeclarationKind,
        r is Ok ==> is_versioning_of(r->Ok_0, decl, tag as nat),
{
    let fields = match &decl.shape {
        Shape::Named(fs) => {
            if fs.len() == 0 {
                return Err(VersionError::UnsupportedDeclarationKind);
            }
            copy_fields_after_tag(fs)
        },
        _ => {
            return Err(VersionError::UnsupportedDeclarationKind);
        },
    };
    let wrapper_name = versioned_name(decl.name.as_str(), tag);
    let dir = directive(wrapper_name.as_str());
    let wrapper = RecordDecl {
        attrs: copy_strings(&decl.attrs),
        vis: decl.vis.clone(),
        name: wrapper_name,
        generics: decl.generics.clone(),
        where_clause: decl.where_clause.clone(),
        shape: Shape::Named(fields),
    };
    let mut attrs = decl.attrs;
    let ghost old_attrs = attrs@;
    attrs.push(dir);
    assert(strings_view(attrs@) =~= strings_view(old_attrs).push(directive_of(wrapper.name@)));
    let original = RecordDecl {
        attrs,
        vis: decl.vis,
        name: decl.name,
        generics: decl.generics,
        where_clause: decl.where_clause,
        shape: decl.shape,
    };
    Ok(VersionedDecls { original, wrapper })
}

/// The names of a declaration's fields, in order.
pub open spec fn decl_field_names(d: RecordDecl) -> Seq<Seq<char>> {
    fields_view(named_fields(d.shape)).map_values(|p: FieldView| p.2)
}

/// Wrapper names are deterministic and unique: two versionings give wrappers
/// of the same name exactly when the originals have the same name and the
/// same version.
pub proof fn lemma_wrapper_names_unique(
    b1: VersionedDecls,
    d1: RecordDecl,
    v1: u8,
    b2: VersionedDecls,
    d2: RecordDecl,
    v2: u8,
)
    requires
        is_versioning_of(b1, d1, v1 as nat),
        is_versioning_of(b2, d2, v2 as nat),
    ensures
        b1.wrapper.name@ == b2.wrapper.name@ <==> (d1.name@ == d2.name@ && v1 == v2),
{
    lemma_versioned_name_injective(d1.name@, v1 as nat, d2.name@, v2 as nat);
}

/// A record value that has the fields of `d`, converted forward and laid
/// out flat, has exactly the fields of the wrapper declaration: the tag
/// entry, then the original's fields under their own names.
pub proof fn lemma_forward_fits_wrapper(
    d: RecordDecl,
    b: VersionedDecls,
    tag: u8,
    x: RecordValue,
    e: Seq<FieldValue>,
)
    requires
        is_versioning_of(b, d, tag as nat),
        names_of(x.fields@) == decl_field_names(d),
        is_entries_of(e, forward(x, tag)),
    ensures
        names_of(e) == decl_field_names(b.wrapper),
{
    lemma_fields_kept(x, tag, e);
    let wf = fields_view(named_fields(b.wrapper.shape));
    let df = fields_view(named_fields(d.shape));
    assert(wf == seq![version_field_view()] + df);
    assert(decl_field_names(b.wrapper) =~= seq![version_field_view().2] + decl_field_names(d)) by {
        assert forall|j: int| 1 <= j < wf.len() implies wf[j] == df[j - 1] by {}
    }
}

} // verus!
