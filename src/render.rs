//! Rust source text for the declarations and conversions that versioning
//! produces.
use vstd::prelude::*;
use vstd::string::StringExecFns;
use crate::decl::{Field, RecordDecl, Shape};
use crate::transform::{VersionError, VersionedDecls, is_versioning_of, version};
use crate::decl::is_supported;
use crate::literal::{version_of_argument, parse_version};
use crate::naming::{decimal, decimal_text};

verus! {

/// `#[a]` on a line of its own, for each attribute in order.
pub open spec fn attrs_text(attrs: Seq<String>) -> Seq<char>
    decreases attrs.len(),
{
    if attrs.len() == 0 {
        Seq::empty()
    } else {
        attrs_text(attrs.drop_last()) + "#["@ + attrs.last()@ + "]\n"@
    }
}

/// `#[a] ` for each attribute of a field, in order.
pub open spec fn field_attrs_text(attrs: Seq<String>) -> Seq<char>
    decreases attrs.len(),
{
    if attrs.len() == 0 {
        Seq::empty()
    } else {
        field_attrs_text(attrs.drop_last()) + "#["@ + attrs.last()@ + "] "@
    }
}

/// A visibility followed by a space, or nothing when there is none.
pub open spec fn vis_text(v: Seq<char>) -> Seq<char> {
    if v.len() == 0 { Seq::empty() } else { v + " "@ }
}

/// A space followed by a `where` clause, or nothing when there is none.
pub open spec fn where_text(w: Seq<char>) -> Seq<char> {
    if w.len() == 0 { Seq::empty() } else { " "@ + w }
}

/// One field on a line of its own: `    #[a] vis name: ty,`.
pub open spec fn field_text(f: Field) -> Seq<char> {
    "    "@ + field_attrs_text(f.attrs@) + vis_text(f.vis@) + f.name@ + ": "@ + f.ty@ + ",\n"@
}

/// Each field on a line of its own, in order.
pub open spec fn fields_text(fs: Seq<Field>) -> Seq<char>
    decreases fs.len(),
{
    if fs.len() == 0 {
        Seq::empty()
    } else {
        fields_text(fs.drop_last()) + field_text(fs.last())
    }
}

/// `name: src.name, ` for each field in order: the field-by-field copy out of
/// the value `src`.
pub open spec fn moves_text(fs: Seq<Field>, src: Seq<char>) -> Seq<char>
    decreases fs.len(),
{
    if fs.len() == 0 {
        Seq::empty()
    } else {
        moves_text(fs.drop_last(), src) + fs.last().name@ + ": "@ + src + "."@ + fs.last().name@ + ", "@
    }
}

/// The source text of a struct with named fields `fs`.
pub open spec fn struct_text(d: RecordDecl, fs: Seq<Field>) -> Seq<char> {
    attrs_text(d.attrs@) + vis_text(d.vis@) + "struct "@ + d.name@ + d.generics@ + where_text(d.where_clause@)
        + " {\n"@ + fields_text(fs) + "}\n"@
}

/// The method `to_versioned` on the original `o` (fields `fs`): it builds the
/// wrapper named `w` with the tag `tag` and every field moved over.
pub open spec fn to_versioned_text(o: RecordDecl, fs: Seq<Field>, w: Seq<char>, tag: nat) -> Seq<char> {
    let g = o.generics@;
    "impl"@ + g + " "@ + o.name@ + g + where_text(o.where_clause@) + " {\n    pub fn to_versioned(self) -> "@ + w + g + " {\n        "@ + w
        + " { version: "@ + decimal(tag) + ", "@ + moves_text(fs, "self"@) + "}\n    }\n}\n"@
}

/// `From` the original `o` into its wrapper named `w`, through `to_versioned`.
pub open spec fn into_wrapper_text(o: RecordDecl, w: Seq<char>) -> Seq<char> {
    let g = o.generics@;
    "impl"@ + g + " std::convert::From<"@ + o.name@ + g + "> for "@ + w + g + where_text(o.where_clause@)
        + " {\n    fn from(s: "@ + o.name@ + g
        + ") -> "@ + w + g + " {\n        s.to_versioned()\n    }\n}\n"@
}

/// `From` the wrapper named `w` back into the original `o` (fields `fs`): every
/// field but the tag is moved over.
pub open spec fn from_wrapper_text(o: RecordDecl, fs: Seq<Field>, w: Seq<char>) -> Seq<char> {
    let g = o.generics@;
    "impl"@ + g + " std::convert::From<"@ + w + g + "> for "@ + o.name@ + g + where_text(o.where_clause@)
        + " {\n    fn from(s: "@ + w + g
        + ") -> "@ + o.name@ + g + " {\n        "@ + o.name@ + " { "@ + moves_text(fs, "s"@) + "}\n    }\n}\n"@
}

/// The source text of the conversions between the original `o` with fields
/// `fs` and its wrapper named `w` at version `tag`: the method `to_versioned`
/// on the original, and `From` both ways.
pub open spec fn conversions_text(o: RecordDecl, fs: Seq<Field>, w: Seq<char>, tag: nat) -> Seq<char> {
    to_versioned_text(o, fs, w, tag) + into_wrapper_text(o, w) + from_wrapper_text(o, fs, w)
}

/// The source text of a versioning result at `tag`: the annotated original,
/// the wrapper, and the conversions.
pub open spec fn versioned_text(b: VersionedDecls, tag: nat) -> Seq<char> {
    struct_text(b.original, b.original.shape->Named_0@) + "\n"@
        + struct_text(b.wrapper, b.wrapper.shape->Named_0@) + "\n"@
        + conversions_text(b.original, b.original.shape->Named_0@, b.wrapper.name@, tag)
}

/// Appends `name: src.name, ` for each field.
fn push_moves(out: &mut String, fs: &Vec<Field>, src: &str)
    ensures
        final(out)@ == old(out)@ + moves_text(fs@, src@),
{
    let mut i: usize = 0;
    while i < fs.len()
        invariant
            i <= fs@.len(),
            out@ == old(out)@ + moves_text(fs@.subrange(0, i as int), src@),
        decreases fs@.len() - i,
    {
        proof { assert(fs@.subrange(0, i + 1).drop_last() =~= fs@.subrange(0, i as int)); }
        out.append(fs[i].name.as_str());
        out.append(": ");
        out.append(src);
        out.append(".");
        out.append(fs[i].name.as_str());
        out.append(", ");
        i = i + 1;
        assert(out@ =~= old(out)@ + moves_text(fs@.subrange(0, i as int), src@));
    }
    assert(fs@.subrange(0, i as int) =~= fs@);
}

/// Appends each attribute as `#[a]` on a line of its own.
fn push_attrs(out: &mut String, attrs: &Vec<String>)
    ensures
        final(out)@ == old(out)@ + attrs_text(attrs@),
{
    let mut i: usize = 0;
    while i < attrs.len()
        invariant
            i <= attrs@.len(),
            out@ == old(out)@ + attrs_text(attrs@.subrange(0, i as int)),
        decreases attrs@.len() - i,
    {
        proof { assert(attrs@.subrange(0, i + 1).drop_last() =~= attrs@.subrange(0, i as int)); }
        out.append("#[");
        out.append(attrs[i].as_str());
        out.append("]\n");
        i = i + 1;
        assert(out@ =~= old(out)@ + attrs_text(attrs@.subrange(0, i as int)));
    }
    assert(attrs@.subrange(0, i as int) =~= attrs@);
}

/// Appends `#[a] ` for each attribute of a field.
fn push_field_attrs(out: &mut String, attrs: &Vec<String>)
    ensures
        final(out)@ == old(out)@ + field_attrs_text(attrs@),
{
    let mut i: usize = 0;
    while i < attrs.len()
        invariant
            i <= attrs@.len(),
            out@ == old(out)@ + field_attrs_text(attrs@.subrange(0, i as int)),
        decreases attrs@.len() - i,
    {
        proof { assert(attrs@.subrange(0, i + 1).drop_last() =~= attrs@.subrange(0, i as int)); }
        out.append("#[");
        out.append(attrs[i].as_str());
        out.append("] ");
        i = i + 1;
        assert(out@ =~= old(out)@ + field_attrs_text(attrs@.subrange(0, i as int)));
    }
    assert(attrs@.subrange(0, i as int) =~= attrs@);
}

/// Appends a visibility and a space, if there is one.
fn push_vis(out: &mut String, v: &str)
    ensures
        final(out)@ == old(out)@ + vis_text(v@),
{
    if v.is_empty() {
        assert(out@ =~= old(out)@ + vis_text(v@));
    } else {
        out.append(v);
        out.append(" ");
        assert(out@ =~= old(out)@ + vis_text(v@));
    }
}

/// Appends a space and a `where` clause, if there is one.
fn push_where(out: &mut String, w: &str)
    ensures
        final(out)@ == old(out)@ + where_text(w@),
{
    if w.is_empty() {
        assert(out@ =~= old(out)@ + where_text(w@));
    } else {
        out.append(" ");
        out.append(w);
        assert(out@ =~= old(out)@ + where_text(w@));
    }
}

/// Appends one field on a line of its own.
fn push_field(out: &mut String, f: &Field)
    ensures
        final(out)@ == old(out)@ + field_text(*f),
{
    out.append("    ");
    push_field_attrs(out, &f.attrs);
    push_vis(out, f.vis.as_str());
    out.append(f.name.as_str());
    out.append(": ");
    out.append(f.ty.as_str());
    out.append(",\n");
    assert(out@ =~= old(out)@ + field_text(*f));
}

/// Appends each field on a line of its own.
fn push_fields(out: &mut String, fs: &Vec<Field>)
    ensures
        final(out)@ == old(out)@ + fields_text(fs@),
{
    let mut i: usize = 0;
    while i < fs.len()
        invariant
            i <= fs@.len(),
            out@ == old(out)@ + fields_text(fs@.subrange(0, i as int)),
        decreases fs@.len() - i,
    {
        proof { assert(fs@.subrange(0, i + 1).drop_last() =~= fs@.subrange(0, i as int)); }
        push_field(out, &fs[i]);
        i = i + 1;
        assert(out@ =~= old(out)@ + fields_text(fs@.subrange(0, i as int)));
    }
    assert(fs@.subrange(0, i as int) =~= fs@);
}

/// The source text of a declaration; `None` unless it has named fields.
pub fn struct_source(d: &RecordDecl) -> (r: Option<String>)
    ensures
        r is Some <==> d.shape is Named,
        r is Some ==> r->Some_0@ == struct_text(*d, d.shape->Named_0@),
{
    match &d.shape {
        Shape::Named(fs) => {
            let mut out = String::new();
            push_attrs(&mut out, &d.attrs);
            push_vis(&mut out, d.vis.as_str());
            out.append("struct ");
            out.append(d.name.as_str());
            out.append(d.generics.as_str());
            push_where(&mut out, d.where_clause.as_str());
            out.append(" {\n");
            push_fields(&mut out, fs);
            out.append("}\n");
            assert(out@ =~= struct_text(*d, fs@));
            Some(out)
        },
        _ => None,
    }
}

/// Appends the method `to_versioned`.
fn push_to_versioned(out: &mut String, o: &RecordDecl, fs: &Vec<Field>, w: &str, tag: u8)
    ensures
        final(out)@ == old(out)@ + to_versioned_text(*o, fs@, w@, tag as nat),
{
    let g = o.generics.as_str();
    out.append("impl");
    out.append(g);
    out.append(" ");
    out.append(o.name.as_str());
    out.append(g);
    push_where(out, o.where_clause.as_str());
    out.append(" {\n    pub fn to_versioned(self) -> ");
    out.append(w);
    out.append(g);
    out.append(" {\n        ");
    out.append(w);
    out.append(" { version: ");
    let d = decimal_text(tag);
    out.append(d.as_str());
    out.append(", ");
    push_moves(out, fs, "self");
    out.append("}\n    }\n}\n");
    assert(out@ =~= old(out)@ + to_versioned_text(*o, fs@, w@, tag as nat));
}

/// Appends `From` the original into the wrapper.
fn push_into_wrapper(out: &mut String, o: &RecordDecl, w: &str)
    ensures
        final(out)@ == old(out)@ + into_wrapper_text(*o, w@),
{
    let g = o.generics.as_str();
    let on = o.name.as_str();
    out.append("impl");
    out.append(g);
    out.append(" std::convert::From<");
    out.append(on);
    out.append(g);
    out.append("> for ");
    out.append(w);
    out.append(g);
    push_where(out, o.where_clause.as_str());
    out.append(" {\n    fn from(s: ");
    out.append(on);
    out.append(g);
    out.append(") -> ");
    out.append(w);
    out.append(g);
    out.append(" {\n        s.to_versioned()\n    }\n}\n");
    assert(out@ =~= old(out)@ + into_wrapper_text(*o, w@));
}

/// Appends `From` the wrapper back into the original.
fn push_from_wrapper(out: &mut String, o: &RecordDecl, fs: &Vec<Field>, w: &str)
    ensures
        final(out)@ == old(out)@ + from_wrapper_text(*o, fs@, w@),
{
    let g = o.generics.as_str();
    let on = o.name.as_str();
    out.append("impl");
    out.append(g);
    out.append(" std::convert::From<");
    out.append(w);
    out.append(g);
    out.append("> for ");
    out.append(on);
    out.append(g);
    push_where(out, o.where_clause.as_str());
    out.append(" {\n    fn from(s: ");
    out.append(w);
    out.append(g);
    out.append(") -> ");
    out.append(on);
    out.append(g);
    out.append(" {\n        ");
    out.append(on);
    out.append(" { ");
    push_moves(out, fs, "s");
    out.append("}\n    }\n}\n");
    assert(out@ =~= old(out)@ + from_wrapper_text(*o, fs@, w@));
}

/// The source text of a versioning result `b` made at version `tag`; `None`
/// unless both declarations have named fields, as every result of versioning
/// does.
pub fn versioned_source(b: &VersionedDecls, tag: u8) -> (r: Option<String>)
    ensures
        r is Some <==> (b.original.shape is Named && b.wrapper.shape is Named),
        r is Some ==> r->Some_0@ == versioned_text(*b, tag as nat),
{
    match struct_source(&b.original) {
        Some(original) => match struct_source(&b.wrapper) {
            Some(wrapper) => match &b.original.shape {
                Shape::Named(fs) => {
                    let mut out = original;
                    out.append("\n");
                    out.append(wrapper.as_str());
                    out.append("\n");
                    let w = b.wrapper.name.as_str();
                    push_to_versioned(&mut out, &b.original, fs, w, tag);
                    push_into_wrapper(&mut out, &b.original, w);
                    push_from_wrapper(&mut out, &b.original, fs, w);
                    assert(out@ =~= versioned_text(*b, tag as nat));
                    Some(out)
                },
                _ => None,
            },
            None => None,
        },
        None => None,
    }
}

/// Versions `decl` at the version that the argument text `arg` gives, and
/// returns the source text of the result: the annotated original, the
/// wrapper, and the conversions. A malformed argument is reported first, then
/// an unsupported declaration.
pub fn generate(decl: RecordDecl, arg: &str) -> (r: Result<String, VersionError>)
    ensures
        version_of_argument(arg@) is None ==> r == Err::<String, VersionError>(VersionError::MalformedVersionArgument),
        version_of_argument(arg@) is Some ==> {
            let tag = version_of_argument(arg@)->Some_0;
            &&& (r is Err <==> !is_supported(decl.shape))
            &&& (r is Err ==> r->Err_0 == VersionError::UnsupportedDeclarationKind)
            &&& (r is Ok ==> exists|b: VersionedDecls| #[trigger] is_versioning_of(b, decl, tag as nat)
                && r->Ok_0@ == versioned_text(b, tag as nat))
        },
{
    let tag = parse_version(arg)?;
    let b = version(decl, tag)?;
    match versioned_source(&b, tag) {
        Some(text) => {
            assert(is_versioning_of(b, decl, tag as nat) && text@ == versioned_text(b, tag as nat));
            Ok(text)
        },
        None => Err(VersionError::UnsupportedDeclarationKind),
    }
}

} // verus!
