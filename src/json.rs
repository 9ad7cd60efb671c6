use vstd::prelude::*;

verus! {

/// A JSON document as plain values. Numbers keep their text as written, of
/// any size; an object keeps its members in the order in which the parser
/// handed them out, one per name.
///
/// serde_json's parser keeps the last of repeated members of one object, so a
/// document that names a member twice is read as if only the last were
/// there, where a deserializer derived for the configuration would reject it.
/// Exact numbers come from serde_json's `arbitrary_precision` feature, under
/// which an object whose first member bears that feature's private number
/// token name is read as a number instead.
#[derive(Debug)]
pub enum JsonValue {
    Null,
    Bool(bool),
    Number(String),
    Str(String),
    Array(Vec<JsonValue>),
    Object(Vec<(String, JsonValue)>),
}

/// What serde_json makes of a byte string: the document, or its diagnostic.
pub uninterp spec fn json_of_bytes(b: Seq<u8>) -> Result<JsonValue, Seq<char>>;

/// Relies on serde_json::from_slice into serde_json::Value: the outcome (the
/// document, or the text of the error) is a function of the bytes alone.
#[verifier::external_body]
pub(crate) fn parse_json(bytes: &[u8]) -> (r: Result<JsonValue, String>)
    ensures
        r is Ok ==> json_of_bytes(bytes@) == Ok::<JsonValue, Seq<char>>(r->Ok_0),
        r is Err ==> json_of_bytes(bytes@) == Err::<JsonValue, Seq<char>>(r->Err_0@),
{
    match serde_json::from_slice::<serde_json::Value>(bytes) {
        Ok(v) => Ok(json_value_from(v)),
        Err(e) => Err(e.to_string()),
    }
}

/// serde_json's document type, carried only from the parser to the conversion
/// below.
#[verifier::external_type_specification]
#[verifier::external_body]
pub struct ExValue(serde_json::Value);

/// Relies on the variants of serde_json::Value: each is moved into the
/// variant of the same shape, numbers through their `Display` text, which
/// with the `arbitrary_precision` feature is the number as written.
#[verifier::external_body]
fn json_value_from(v: serde_json::Value) -> JsonValue {
    match v {
        serde_json::Value::Null => JsonValue::Null,
        serde_json::Value::Bool(b) => JsonValue::Bool(b),
        serde_json::Value::Number(n) => JsonValue::Number(n.to_string()),
        serde_json::Value::String(s) => JsonValue::Str(s),
        serde_json::Value::Array(a) => JsonValue::Array(a.into_iter().map(json_value_from).collect()),
        serde_json::Value::Object(m) => JsonValue::Object(
            m.into_iter().map(|(k, x)| (k, json_value_from(x))).collect(),
        ),
    }
}

/// The value of the last member named `key`, if any.
pub open spec fn field_of(members: Seq<(String, JsonValue)>, key: Seq<char>) -> Option<JsonValue>
    decreases members.len(),
{
    if members.len() == 0 {
        None
    } else if members.last().0@ == key {
        Some(members.last().1)
    } else {
        field_of(members.drop_last(), key)
    }
}

/// Index of the last member named `key`, if any.
pub fn find_field(members: &Vec<(String, JsonValue)>, key: &String) -> (r: Option<usize>)
    ensures
        r matches Some(k) ==> k < members@.len() && members@[k as int].0@ == key@ && field_of(members@, key@)
            == Some(members@[k as int].1),
        r matches Some(k) ==> forall|j: int| k < j < members@.len() ==> (#[trigger] members@[j]).0@ != key@,
        r is None ==> field_of(members@, key@) is None,
        r is None ==> forall|j: int| 0 <= j < members@.len() ==> (#[trigger] members@[j]).0@ != key@,
{
    let mut found: Option<usize> = None;
    let mut i: usize = 0;
    while i < members.len()
        invariant
            i <= members@.len(),
            found matches Some(k) ==> k < i && members@[k as int].0@ == key@ && field_of(
                members@.subrange(0, i as int),
                key@,
            ) == Some(members@[k as int].1),
            found matches Some(k) ==> forall|j: int| k < j < i ==> (#[trigger] members@[j]).0@ != key@,
            found is None ==> field_of(members@.subrange(0, i as int), key@) is None,
            found is None ==> forall|j: int| 0 <= j < i ==> (#[trigger] members@[j]).0@ != key@,
        decreases members@.len() - i,
    {
        assert(members@.subrange(0, i + 1).drop_last() =~= members@.subrange(0, i as int));
        if members[i].0 == *key {
            found = Some(i);
        }
        i = i + 1;
    }
    assert(members@.subrange(0, i as int) =~= members@);
    found
}

} // verus!
