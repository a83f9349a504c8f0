//! The library's own JSON tree, and the trusted boundary that parses
//! bytes into it.
//!
//! The tree holds plain values only, so the schema decoders over it are
//! verified against exact spec functions. One trusted wrapper stands
//! between the bytes and the tree; what the parser makes of a byte
//! sequence is a function of the bytes alone and carries the name
//! `spec_parse_json`.

use vstd::prelude::*;

verus! {

/// A parsed JSON document over plain values.
///
/// Numbers keep their integer value when they have one; any other
/// number (a fraction, or a magnitude beyond 64 bits) is kept only as
/// the fact that a number was present, which every schema of this
/// library rejects.
#[derive(Debug)]
pub enum JsonValue {
    Null,
    Bool(bool),
    /// A number that fits a signed 64-bit integer.
    Int(i64),
    /// A number that fits an unsigned but not a signed 64-bit integer.
    UInt(u64),
    /// Any other number.
    NonInt,
    Text(String),
    Array(Vec<JsonValue>),
    /// An object's fields in the order the parser hands them over; a
    /// parsed object carries each key once.
    Object(Vec<JsonField>),
}

/// One field of a JSON object.
#[derive(Debug)]
pub struct JsonField {
    pub key: String,
    pub value: JsonValue,
}

/// What the JSON parser makes of a byte sequence: the parsed tree, or
/// nothing when the bytes are not one JSON document.
pub uninterp spec fn spec_parse_json(bytes: Seq<u8>) -> Option<JsonValue>;

/// Declares serde_json::Value so the trusted carrier below may name it;
/// verified code never touches a value of it.
#[verifier::external_type_specification]
#[verifier::external_body]
pub struct ExValue(serde_json::Value);

/// Relies on serde_json::from_slice: parses bytes as one JSON document;
/// the resulting tree is a function of the bytes alone.
#[verifier::external_body]
pub(crate) fn parse_json(body: &[u8]) -> (r: Option<JsonValue>)
    ensures
        r == spec_parse_json(body@),
{
    serde_json::from_slice::<serde_json::Value>(body).ok().map(tree_of)
}

/// Carries serde_json's tree over into the library's own, one variant
/// per arm; only the body of `parse_json` calls it.
#[verifier::external_body]
fn tree_of(value: serde_json::Value) -> JsonValue {
    match value {
        serde_json::Value::Null => JsonValue::Null,
        serde_json::Value::Bool(b) => JsonValue::Bool(b),
        serde_json::Value::Number(n) => match (n.as_i64(), n.as_u64()) {
            (Some(i), _) => JsonValue::Int(i),
            (None, Some(u)) => JsonValue::UInt(u),
            (None, None) => JsonValue::NonInt,
        },
        serde_json::Value::String(s) => JsonValue::Text(s),
        serde_json::Value::Array(a) => JsonValue::Array(a.into_iter().map(tree_of).collect()),
        serde_json::Value::Object(m) => JsonValue::Object(
            m.into_iter().map(|(k, v)| JsonField { key: k, value: tree_of(v) }).collect(),
        ),
    }
}

/// Relies on String::from_utf8_lossy: renders raw bytes as text for a
/// diagnostic message.
#[verifier::external_body]
pub(crate) fn utf8_lossy(body: &[u8]) -> String {
    String::from_utf8_lossy(body).into_owned()
}

/// The first field of an object's field list carrying the given key.
pub open spec fn spec_field(fields: Seq<JsonField>, key: Seq<char>) -> Option<JsonValue>
    decreases fields.len(),
{
    if fields.len() == 0 {
        None
    } else if fields[0].key@ == key {
        Some(fields[0].value)
    } else {
        spec_field(fields.drop_first(), key)
    }
}

/// The field of an object under the given key; nothing on any other tree.
pub open spec fn spec_get(v: JsonValue, key: Seq<char>) -> Option<JsonValue> {
    match v {
        JsonValue::Object(fields) => spec_field(fields@, key),
        _ => None,
    }
}

/// The text of a string tree; nothing on any other tree.
pub open spec fn spec_as_text(v: JsonValue) -> Option<Seq<char>> {
    match v {
        JsonValue::Text(s) => Some(s@),
        _ => None,
    }
}

/// The value of an integer number tree that fits a signed 64-bit
/// integer; nothing on any other tree.
pub open spec fn spec_as_int(v: JsonValue) -> Option<i64> {
    match v {
        JsonValue::Int(n) => Some(n),
        _ => None,
    }
}

/// The elements of an array tree; nothing on any other tree.
pub open spec fn spec_as_array(v: JsonValue) -> Option<Seq<JsonValue>> {
    match v {
        JsonValue::Array(items) => Some(items@),
        _ => None,
    }
}

/// A lookup skips every leading field whose key differs.
proof fn lemma_spec_field_skip(fields: Seq<JsonField>, key: Seq<char>, i: int)
    requires
        0 <= i <= fields.len(),
        forall|j: int| 0 <= j < i ==> fields[j].key@ != key,
    ensures
        spec_field(fields, key) == spec_field(fields.skip(i), key),
    decreases i,
{
    if i > 0 {
        assert(forall|j: int|
            0 <= j < i - 1 ==> fields.drop_first()[j].key@ == fields[j + 1].key@ && fields[j
                + 1].key@ != key);
        lemma_spec_field_skip(fields.drop_first(), key, i - 1);
        assert(fields.skip(i) =~= fields.drop_first().skip(i - 1));
    } else {
        assert(fields.skip(0) =~= fields);
    }
}

/// Looks up one key of an object, exactly as `spec_get` states.
pub(crate) fn tree_get<'a>(v: &'a JsonValue, key: &str) -> (r: Option<&'a JsonValue>)
    ensures
        match r {
            Some(f) => spec_get(*v, key@) == Some(*f),
            None => spec_get(*v, key@) is None,
        },
{
    match v {
        JsonValue::Object(fields) => {
            let key_string = String::from_str(key);
            let mut i: usize = 0;
            while i < fields.len()
                invariant
                    i <= fields@.len(),
                    key_string@ == key@,
                    spec_get(*v, key@) == spec_field(fields@, key@),
                    forall|j: int| 0 <= j < i ==> fields@[j].key@ != key@,
                decreases fields@.len() - i,
            {
                if fields[i].key == key_string {
                    proof {
                        lemma_spec_field_skip(fields@, key@, i as int);
                        assert(fields@.skip(i as int)[0] == fields@[i as int]);
                        assert(fields@.skip(i as int).len() > 0);
                        assert(spec_field(fields@.skip(i as int), key@) == Some(
                            fields@[i as int].value,
                        ));
                        assert(spec_get(*v, key@) == spec_field(fields@, key@));
                    }
                    return Some(&fields[i].value);
                }
                i = i + 1;
            }
            proof {
                lemma_spec_field_skip(fields@, key@, fields@.len() as int);
                assert(fields@.skip(fields@.len() as int) =~= Seq::<JsonField>::empty());
                assert(spec_get(*v, key@) == spec_field(fields@, key@));
            }
            None
        },
        _ => None,
    }
}

/// Whether the tree is the JSON null.
pub(crate) fn tree_is_null(v: &JsonValue) -> (r: bool)
    ensures
        r == (*v matches JsonValue::Null),
{
    match v {
        JsonValue::Null => true,
        _ => false,
    }
}

/// The text of a string tree, copied out; exactly as `spec_as_text` states.
pub(crate) fn tree_as_string(v: &JsonValue) -> (r: Option<String>)
    ensures
        match r {
            Some(s) => spec_as_text(*v) == Some(s@),
            None => spec_as_text(*v) is None,
        },
{
    match v {
        JsonValue::Text(s) => Some(s.clone()),
        _ => None,
    }
}

/// The integer value of a number tree; exactly as `spec_as_int` states.
pub(crate) fn tree_as_int(v: &JsonValue) -> (r: Option<i64>)
    ensures
        r == spec_as_int(*v),
{
    match v {
        JsonValue::Int(n) => Some(*n),
        _ => None,
    }
}

/// The elements of an array tree; exactly as `spec_as_array` states.
pub(crate) fn tree_as_array<'a>(v: &'a JsonValue) -> (r: Option<&'a Vec<JsonValue>>)
    ensures
        match r {
            Some(items) => spec_as_array(*v) == Some(items@),
            None => spec_as_array(*v) is None,
        },
{
    match v {
        JsonValue::Array(items) => Some(items),
        _ => None,
    }
}

} // verus!
