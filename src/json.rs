use vstd::prelude::*;

verus! {

/// A JSON document, as the library reads it.
///
/// A number is kept as the `i64` it equals, or as `None` when it is no such integer. An
/// object keeps its members as a list; a lookup takes the first member of a name.
#[derive(Debug)]
pub enum Json {
    Null,
    Bool(bool),
    Number(Option<i64>),
    Str(String),
    Array(Vec<Json>),
    Object(Vec<(String, Json)>),
}

#[verifier::external_type_specification]
#[verifier::external_body]
pub struct ExJsonValue(serde_json::Value);

/// The document that a text holds, or `None` when the text is not JSON.
pub uninterp spec fn json_text_value(text: Seq<char>) -> Option<Json>;

/// Relies on serde_json::from_str, read into serde_json::Value: it parses the whole text
/// as one JSON document and fails on anything else. The result depends on the text alone:
/// serde_json's object map (without its `preserve_order` feature) is a `BTreeMap`, so
/// members come out in key order.
#[verifier::external_body]
fn parse_value(text: &str) -> (r: Option<Json>)
    ensures
        r == json_text_value(text@),
{
    serde_json::from_str::<serde_json::Value>(text).ok().map(|v| json_of(&v))
}

/// Turns serde_json's tree into the library's, variant for variant; a number goes through
/// serde_json::Number::as_i64, which gives the `i64` that the number equals, if any.
#[verifier::external_body]
fn json_of(v: &serde_json::Value) -> Json {
    match v {
        serde_json::Value::Null => Json::Null,
        serde_json::Value::Bool(b) => Json::Bool(*b),
        serde_json::Value::Number(n) => Json::Number(n.as_i64()),
        serde_json::Value::String(s) => Json::Str(s.clone()),
        serde_json::Value::Array(a) => Json::Array(a.iter().map(json_of).collect()),
        serde_json::Value::Object(m) => Json::Object(m.iter().map(|(k, x)| (k.clone(), json_of(x))).collect()),
    }
}

/// Parses `text` as a JSON document.
pub fn parse_json(text: &str) -> (r: Option<Json>)
    ensures
        r == json_text_value(text@),
{
    parse_value(text)
}

/// The value of the first member of `fields` named `key`.
pub open spec fn lookup(fields: Seq<(String, Json)>, key: Seq<char>) -> Option<Json>
    decreases fields.len(),
{
    if fields.len() == 0 {
        None
    } else if fields[0].0@ == key {
        Some(fields[0].1)
    } else {
        lookup(fields.drop_first(), key)
    }
}

proof fn lemma_lookup_from(fields: Seq<(String, Json)>, key: Seq<char>, i: int)
    requires
        0 <= i < fields.len(),
        fields[i].0@ != key,
    ensures
        lookup(fields.subrange(i, fields.len() as int), key)
            == lookup(fields.subrange(i + 1, fields.len() as int), key),
{
    let t = fields.subrange(i, fields.len() as int);
    assert(t.drop_first() =~= fields.subrange(i + 1, fields.len() as int));
}

/// Whether two strings hold the same characters.
pub fn same_text(a: &str, b: &str) -> (r: bool)
    ensures
        r == (a@ == b@),
{
    let n = a.unicode_len();
    if n != b.unicode_len() {
        return false;
    }
    let mut i: usize = 0;
    while i < n
        invariant
            n == a@.len(),
            n == b@.len(),
            i <= n,
            forall|j: int| 0 <= j < i ==> a@[j] == b@[j],
        decreases n - i,
    {
        if a.get_char(i) != b.get_char(i) {
            return false;
        }
        i = i + 1;
    }
    assert(a@ =~= b@);
    true
}

/// The value of the member of `fields` named `key`.
pub fn find_field<'a>(fields: &'a Vec<(String, Json)>, key: &str) -> (r: Option<&'a Json>)
    ensures
        match r {
            Some(v) => lookup(fields@, key@) == Some(*v),
            None => lookup(fields@, key@) is None,
        },
{
    let mut i: usize = 0;
    assert(fields@.subrange(0, fields@.len() as int) =~= fields@);
    while i < fields.len()
        invariant
            i <= fields.len(),
            lookup(fields@, key@) == lookup(fields@.subrange(i as int, fields@.len() as int), key@),
        decreases fields.len() - i,
    {
        if same_text(fields[i].0.as_str(), key) {
            return Some(&fields[i].1);
        }
        proof {
            lemma_lookup_from(fields@, key@, i as int);
        }
        i = i + 1;
    }
    None
}

} // verus!
