use vstd::prelude::*;

verus! {

/// A JSON document as plain values. Object members keep the order in which
/// the parser hands them out; their keys are distinct.
#[derive(Debug)]
pub enum Json {
    Null,
    Bool(bool),
    /// A number, in its canonical text form.
    Number(String),
    Str(String),
    Array(Vec<Json>),
    Object(Vec<(String, Json)>),
}

/// What serde_json reads from `bytes` as one JSON document; `None` where it
/// reports an error.
pub uninterp spec fn parsed_json(bytes: Seq<u8>) -> Option<Json>;

#[verifier::external_type_specification]
#[verifier::external_body]
pub struct ExJsonValue(serde_json::Value);

/// Relies on serde_json::from_slice: reads one JSON document, and the result
/// depends on the bytes alone; an input with no value in it ends in an
/// end-of-input error.
#[verifier::external_body]
pub(crate) fn parse_json(bytes: &[u8]) -> (r: Option<Json>)
    ensures
        r == parsed_json(bytes@),
        bytes@.len() == 0 ==> r is None,
{
    serde_json::from_slice::<serde_json::Value>(bytes).ok().map(json_from_value)
}

/// Relies on serde_json::Value's variants: moves each one into the variant of
/// the same shape, numbers through their `Display` text.
#[verifier::external_body]
fn json_from_value(v: serde_json::Value) -> Json {
    match v {
        serde_json::Value::Null => Json::Null,
        serde_json::Value::Bool(b) => Json::Bool(b),
        serde_json::Value::Number(n) => Json::Number(n.to_string()),
        serde_json::Value::String(s) => Json::Str(s),
        serde_json::Value::Array(a) => Json::Array(a.into_iter().map(json_from_value).collect()),
        serde_json::Value::Object(m) => Json::Object(
            m.into_iter().map(|(k, x)| (k, json_from_value(x))).collect(),
        ),
    }
}

/// The value of the first member named `key`.
pub open spec fn member(fields: Seq<(String, Json)>, key: Seq<char>) -> Option<Json>
    decreases fields.len(),
{
    if fields.len() == 0 {
        None
    } else if fields[0].0@ == key {
        Some(fields[0].1)
    } else {
        member(fields.drop_first(), key)
    }
}

/// The member named `key` of an object's fields.
pub fn find_member<'a>(fields: &'a Vec<(String, Json)>, key: &str) -> (r: Option<&'a Json>)
    ensures
        r is None <==> member(fields@, key@) is None,
        r matches Some(j) ==> member(fields@, key@) == Some(*j),
{
    let wanted = key.to_owned();
    let mut i: usize = 0;
    assert(fields@.subrange(0, fields@.len() as int) =~= fields@);
    while i < fields.len()
        invariant
            wanted@ == key@,
            i <= fields@.len(),
            member(fields@, key@) == member(fields@.subrange(i as int, fields@.len() as int), key@),
        decreases fields.len() - i,
    {
        let ghost rest = fields@.subrange(i as int, fields@.len() as int);
        assert(rest.drop_first() =~= fields@.subrange(i + 1, fields@.len() as int));
        if fields[i].0 == wanted {
            return Some(&fields[i].1);
        }
        i = i + 1;
    }
    assert(fields@.subrange(i as int, fields@.len() as int) =~= Seq::<(String, Json)>::empty());
    None
}

} // verus!
