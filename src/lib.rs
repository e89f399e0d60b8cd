//! Versioned wrappers for serializable records.
//!
//! Given a struct with named fields and a version tag `V`, the library
//! produces a second struct, `_<Name>v<V>`, holding a `version: u8` field
//! followed by every field of the original in order (the fields are spliced
//! in flat, not nested). It also produces the conversions both ways: forward
//! stamps `V` and carries every field over; backward drops the tag. The
//! original gains the attribute `serde(into = "_<Name>v<V>", from = "_<Name>v<V>")`,
//! so a serializer that honours that redirection writes the tag beside the
//! fields on save and strips it on load.
//!
//! - [`decl`]: declarations as plain values.
//! - [`naming`]: the wrapper's name, unique for each `(name, version)` pair.
//! - [`transform`]: the transformation and its errors.
//! - [`value`]: record and wrapper values, the conversions, and their flat form.
//! - [`literal`]: reading the version argument.
//! - [`render`]: Rust source text for the whole result.
//!
//! Enums, unions, tuple structs and structs without fields are refused.
//! Generic parameters are carried through unchanged, but serde's `into`/`from`
//! redirection does not support generic types, so only non-generic records work
//! end to end. A wrapper name that clashes with another item in the same scope
//! is not detected here: the compiler reports the duplicate definition.
use vstd::prelude::*;

pub mod decl;
pub mod literal;
pub mod naming;
pub mod render;
pub mod transform;
pub mod value;

pub use transform::version;

verus! {

} // verus!
