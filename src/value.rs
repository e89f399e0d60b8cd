//! Values of a record and of its versioned wrapper, and the conversions
//! between them.
use vstd::prelude::*;
use vstd::string::StringExecFns;

verus! {

/// A field's value.
#[derive(Debug, PartialEq, Eq)]
pub enum Value {
    Int(i64),
    UInt(u64),
    Bool(bool),
    Text(String),
    /// A nested record, its fields in order.
    Record(Vec<FieldValue>),
}

/// A named field and its value.
#[derive(Debug, PartialEq, Eq)]
pub struct FieldValue {
    pub name: String,
    pub value: Value,
}

/// A value of an original record: its fields in declaration order.
#[derive(Debug, PartialEq, Eq)]
pub struct RecordValue {
    pub fields: Vec<FieldValue>,
}

/// A value of a versioned wrapper: the version tag and the original's fields.
#[derive(Debug, PartialEq, Eq)]
pub struct VersionedValue {
    pub version: u8,
    pub fields: Vec<FieldValue>,
}

/// The name of the tag entry, `version`.
pub open spec fn version_key() -> Seq<char> {
    seq!['v', 'e', 'r', 's', 'i', 'o', 'n']
}

/// The forward conversion: stamp `tag` and carry every field over.
pub open spec fn forward(x: RecordValue, tag: u8) -> VersionedValue {
    VersionedValue { version: tag, fields: x.fields }
}

/// The backward conversion: drop the tag and keep the fields.
pub open spec fn backward(w: VersionedValue) -> RecordValue {
    RecordValue { fields: w.fields }
}

/// The flat document of a wrapper value: the tag entry, then each field at
/// the same level.
pub open spec fn is_entries_of(e: Seq<FieldValue>, w: VersionedValue) -> bool {
    &&& e.len() == w.fields@.len() + 1
    &&& e[0].name@ == version_key()
    &&& e[0].value == Value::UInt(w.version as u64)
    &&& e.subrange(1, e.len() as int) == w.fields@
}

/// The names of a list of fields, in order.
pub open spec fn names_of(fs: Seq<FieldValue>) -> Seq<Seq<char>> {
    fs.map_values(|f: FieldValue| f.name@)
}

impl RecordValue {
    /// The forward conversion at version `tag`.
    pub fn to_versioned(self, tag: u8) -> (r: VersionedValue)
        ensures
            r == forward(self, tag),
    {
        VersionedValue { version: tag, fields: self.fields }
    }
}

impl VersionedValue {
    /// The backward conversion.
    pub fn into_original(self) -> (r: RecordValue)
        ensures
            r == backward(self),
    {
        RecordValue { fields: self.fields }
    }

    /// The flat document of this value: an entry `version` holding the tag,
    /// then the fields, all at one level.
    pub fn into_entries(self) -> (r: Vec<FieldValue>)
        ensures
            is_entries_of(r@, self),
    {
        proof { reveal_strlit("version"); }
        let ghost w = self;
        let mut fields = self.fields;
        let tag = FieldValue { name: String::from_str("version"), value: Value::UInt(self.version as u64) };
        fields.insert(0, tag);
        assert(fields@[0].name@ =~= version_key());
        assert(fields@.subrange(1, fields@.len() as int) =~= w.fields@);
        fields
    }

    /// Reads a flat document back: it must start with an entry `version`
    /// holding an unsigned value that fits in a `u8`; the rest are the fields.
    pub fn from_entries(entries: Vec<FieldValue>) -> (r: Option<VersionedValue>)
        ensures
            r is Some <==> (entries@.len() > 0 && entries@[0].name@ == version_key()
                && entries@[0].value is UInt && entries@[0].value->UInt_0 <= 255),
            r is Some ==> is_entries_of(entries@, r->Some_0),
    {
        proof { reveal_strlit("version"); }
        if entries.len() == 0 {
            return None;
        }
        let key = String::from_str("version");
        assert(key@ =~= version_key());
        if entries[0].name != key {
            return None;
        }
        let v: u8 = match entries[0].value {
            Value::UInt(v) => {
                if v > 255 {
                    return None;
                }
                v as u8
            },
            _ => {
                return None;
            },
        };
        let ghost old_entries = entries@;
        let mut fields = entries;
        let _tag = fields.remove(0);
        assert(fields@ =~= old_entries.subrange(1, old_entries.len() as int));
        Some(VersionedValue { version: v, fields })
    }
}

/// Round trip: converting a record forward at any tag and back gives the
/// record again.
pub proof fn lemma_round_trip(x: RecordValue, tag: u8)
    ensures
        backward(forward(x, tag)) == x,
{
}

/// Tag stamping: the forward conversion carries exactly the tag it was given,
/// whatever the record holds.
pub proof fn lemma_tag_stamped(x: RecordValue, tag: u8)
    ensures
        forward(x, tag).version == tag,
{
}

/// Field fidelity: in the flat document of a forward conversion, the tag entry
/// comes first and every field of the record follows, in order, with its name
/// and value unchanged.
pub proof fn lemma_fields_kept(x: RecordValue, tag: u8, e: Seq<FieldValue>)
    requires
        is_entries_of(e, forward(x, tag)),
    ensures
        e.len() == x.fields@.len() + 1,
        e[0].name@ == version_key(),
        e[0].value == Value::UInt(tag as u64),
        forall|i: int| 0 <= i < x.fields@.len() ==> #[trigger] e[i + 1] == x.fields@[i],
        names_of(e) == seq![version_key()] + names_of(x.fields@),
{
    assert forall|i: int| 0 <= i < x.fields@.len() implies #[trigger] e[i + 1] == x.fields@[i] by {
        assert(e.subrange(1, e.len() as int)[i] == e[i + 1]);
    }
    assert(names_of(e) =~= seq![version_key()] + names_of(x.fields@)) by {
        assert forall|j: int| 1 <= j < e.len() implies e[j] == x.fields@[j - 1] by {
            assert(e[(j - 1) + 1] == x.fields@[j - 1]);
        }
    }
}

/// A document read back from the flat form of a wrapper value is that value,
/// and converting it backward gives the original record without the tag.
pub proof fn lemma_entries_round_trip(x: RecordValue, tag: u8, e: Seq<FieldValue>, w: VersionedValue)
    requires
        is_entries_of(e, forward(x, tag)),
        is_entries_of(e, w),
    ensures
        w.version == tag,
        w.fields@ == x.fields@,
        backward(w).fields@ == x.fields@,
{
}

} // verus!
