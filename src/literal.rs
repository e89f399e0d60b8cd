//! Reading the version argument, an integer literal, with syn.
use vstd::prelude::*;
use vstd::std_specs::iter::IteratorSpec;
use crate::decl::{RecordDecl, is_supported};
use crate::transform::{VersionError, VersionedDecls, is_versioning_of, version};

verus! {

/// The value of `s` read as a Rust integer literal (any base, `_` separators,
/// optional suffix) when that value fits in a `u8`.
pub uninterp spec fn int_literal_u8(s: Seq<char>) -> Option<u8>;

/// The brackets that open or close a delimited group of tokens.
pub open spec fn is_delimiter(c: char) -> bool {
    c == '(' || c == ')' || c == '[' || c == ']' || c == '{' || c == '}'
}

/// `s` holds a bracket. No integer literal does, and the tokenizer nests
/// into each group, so such text is refused before it is tokenized.
pub open spec fn has_delimiter(s: Seq<char>) -> bool {
    exists|i: int| 0 <= i < s.len() && is_delimiter(#[trigger] s[i])
}

/// Whether `s` holds a bracket, in one pass over its characters.
fn contains_delimiter(s: &str) -> (r: bool)
    ensures
        r == has_delimiter(s@),
{
    broadcast use vstd::string::axiom_spec_iter, vstd::string::next_postcondition;
    let mut it = s.chars();
    let ghost mut k: int = 0;
    loop
        invariant
            0 <= k <= s@.len(),
            it.obeys_prophetic_iter_laws(),
            it.remaining() == s@.subrange(k, s@.len() as int),
            forall|i: int| 0 <= i < k ==> !is_delimiter(#[trigger] s@[i]),
        decreases s@.len() - k,
    {
        match it.next() {
            Some(c) => {
                assert(c == s@[k]);
                if c == '(' || c == ')' || c == '[' || c == ']' || c == '{' || c == '}' {
                    return true;
                }
                proof { k = k + 1; }
                assert(it.remaining() =~= s@.subrange(k, s@.len() as int));
            },
            None => {
                return false;
            },
        }
    }
}

/// Relies on `syn::parse_str::<syn::LitInt>`, which reads `s` as one integer
/// literal token, and on `syn::LitInt::base10_parse::<u8>`, which reads its
/// value into a `u8`; either failing gives `None`. The tokenizer recurses once
/// per level of bracket nesting, so text with brackets is not handed to it.
#[verifier::external_body]
fn parse_u8_literal(s: &str) -> (r: Option<u8>)
    requires
        !has_delimiter(s@),
    ensures
        r == int_literal_u8(s@),
{
    syn::parse_str::<syn::LitInt>(s).and_then(|lit| lit.base10_parse::<u8>()).ok()
}

/// The version tag that the argument text `arg` gives, if any: none when it
/// holds a bracket or is not an integer literal whose value fits in a `u8`.
pub open spec fn version_of_argument(arg: Seq<char>) -> Option<u8> {
    if has_delimiter(arg) {
        None
    } else {
        int_literal_u8(arg)
    }
}

/// The version tag given by the argument text `arg`.
pub fn parse_version(arg: &str) -> (r: Result<u8, VersionError>)
    ensures
        r == match version_of_argument(arg@) {
            Some(v) => Ok::<u8, VersionError>(v),
            None => Err(VersionError::MalformedVersionArgument),
        },
{
    if contains_delimiter(arg) {
        return Err(VersionError::MalformedVersionArgument);
    }
    match parse_u8_literal(arg) {
        Some(v) => Ok(v),
        None => Err(VersionError::MalformedVersionArgument),
    }
}

/// Versions `decl` at the version that the argument text `arg` gives: a
/// malformed argument is reported first, then an unsupported declaration.
pub fn version_with_argument(decl: RecordDecl, arg: &str) -> (r: Result<VersionedDecls, VersionError>)
    ensures
        version_of_argument(arg@) is None ==> r == Err::<VersionedDecls, VersionError>(VersionError::MalformedVersionArgument),
        version_of_argument(arg@) is Some ==> {
            let tag = version_of_argument(arg@)->Some_0;
            &&& (r is Err <==> !is_supported(decl.shape))
            &&& (r is Err ==> r->Err_0 == VersionError::UnsupportedDeclarationKind)
            &&& (r is Ok ==> is_versioning_of(r->Ok_0, decl, tag as nat))
        },
{
    let tag = parse_version(arg)?;
    version(decl, tag)
}

} // verus!
