//! A JSON document as plain values, read from a text frame by serde_json, and
//! the typed field lookups that the venue classifiers are built from.

use vstd::prelude::*;

verus! {

#[verifier::external_type_specification]
#[verifier::external_body]
pub struct ExJsonValue(serde_json::Value);

/// A JSON number: its value when it is a non-negative integer that fits
/// `u64`, and its decimal text as serde_json prints it.
#[derive(Debug, Clone)]
pub struct JsonNumber {
    pub unsigned: Option<u64>,
    pub text: String,
}

/// A JSON document. Object members keep serde_json's order (by key) and keys
/// are unique.
#[derive(Debug)]
pub enum JsonValue {
    Null,
    Bool(bool),
    Number(JsonNumber),
    Str(String),
    Array(Vec<JsonValue>),
    Object(Vec<(String, JsonValue)>),
}

/// The document that serde_json reads from a text, or none when the text is
/// not JSON.
pub uninterp spec fn parsed_json(text: Seq<char>) -> Option<JsonValue>;

/// Relies on `serde_json::from_str::<serde_json::Value>`: the document of the
/// text, or serde_json's error when the text is not JSON.
#[verifier::external_body]
pub(crate) fn parse_json(text: &str) -> (r: Result<JsonValue, serde_json::Error>)
    ensures
        r is Ok <==> parsed_json(text@) is Some,
        r matches Ok(v) ==> parsed_json(text@) == Some(v),
{
    serde_json::from_str::<serde_json::Value>(text).map(document_of)
}

/// Relies on the variants of `serde_json::Value`: each is moved into the
/// matching variant here; a number keeps `Number::as_u64` and its `Display`.
#[verifier::external_body]
fn document_of(v: serde_json::Value) -> JsonValue {
    match v {
        serde_json::Value::Null => JsonValue::Null,
        serde_json::Value::Bool(b) => JsonValue::Bool(b),
        serde_json::Value::Number(n) => JsonValue::Number(JsonNumber { unsigned: n.as_u64(), text: n.to_string() }),
        serde_json::Value::String(s) => JsonValue::Str(s),
        serde_json::Value::Array(a) => JsonValue::Array(a.into_iter().map(document_of).collect()),
        serde_json::Value::Object(m) => JsonValue::Object(m.into_iter().map(|(k, v)| (k, document_of(v))).collect()),
    }
}

/// The document behind an optional reference.
pub open spec fn deref_opt(v: Option<&JsonValue>) -> Option<JsonValue> {
    match v {
        Some(x) => Some(*x),
        None => None,
    }
}

/// The value of the first member named `key`.
pub open spec fn field(entries: Seq<(String, JsonValue)>, key: Seq<char>) -> Option<JsonValue>
    decreases entries.len(),
{
    if entries.len() == 0 {
        None
    } else if entries[0].0@ == key {
        Some(entries[0].1)
    } else {
        field(entries.drop_first(), key)
    }
}

pub open spec fn as_str(v: Option<JsonValue>) -> Option<String> {
    match v {
        Some(JsonValue::Str(s)) => Some(s),
        _ => None,
    }
}

pub open spec fn as_u64(v: Option<JsonValue>) -> Option<u64> {
    match v {
        Some(JsonValue::Number(n)) => n.unsigned,
        _ => None,
    }
}

pub open spec fn as_bool(v: Option<JsonValue>) -> Option<bool> {
    match v {
        Some(JsonValue::Bool(b)) => Some(b),
        _ => None,
    }
}

/// The text of any number.
pub open spec fn as_number_text(v: Option<JsonValue>) -> Option<String> {
    match v {
        Some(JsonValue::Number(n)) => Some(n.text),
        _ => None,
    }
}

/// An optional field: absent or `null` reads as `Some(None)`, a value of the
/// right type as `Some(Some(..))`, anything else does not read.
pub open spec fn is_absent(v: Option<JsonValue>) -> bool {
    v is None || v == Some(JsonValue::Null)
}

pub open spec fn as_opt_u64(v: Option<JsonValue>) -> Option<Option<u64>> {
    if is_absent(v) {
        Some(None)
    } else {
        match as_u64(v) {
            Some(n) => Some(Some(n)),
            None => None,
        }
    }
}

pub open spec fn as_opt_bool(v: Option<JsonValue>) -> Option<Option<bool>> {
    if is_absent(v) {
        Some(None)
    } else {
        match as_bool(v) {
            Some(b) => Some(Some(b)),
            None => None,
        }
    }
}

pub open spec fn as_opt_str(v: Option<JsonValue>) -> Option<Option<String>> {
    if is_absent(v) {
        Some(None)
    } else {
        match as_str(v) {
            Some(s) => Some(Some(s)),
            None => None,
        }
    }
}

/// Array items that each read by `f`, in order; none when one does not.
pub open spec fn items_of<T>(items: Seq<JsonValue>, f: spec_fn(JsonValue) -> Option<T>) -> Option<Seq<T>>
    decreases items.len(),
{
    if items.len() == 0 {
        Some(Seq::empty())
    } else {
        match (items_of(items.drop_last(), f), f(items.last())) {
            (Some(init), Some(x)) => Some(init.push(x)),
            _ => None,
        }
    }
}

/// A prefix that does not read spoils every longer sequence.
pub proof fn lemma_items_of_prefix<T>(items: Seq<JsonValue>, f: spec_fn(JsonValue) -> Option<T>, n: int)
    requires
        0 <= n <= items.len(),
        items_of(items.take(n), f) is None,
    ensures
        items_of(items, f) is None,
    decreases items.len() - n,
{
    if n < items.len() {
        assert(items.take(n + 1).drop_last() =~= items.take(n));
        lemma_items_of_prefix(items, f, n + 1);
    } else {
        assert(items.take(n) =~= items);
    }
}

pub open spec fn str_item(v: JsonValue) -> Option<String> {
    match v {
        JsonValue::Str(s) => Some(s),
        _ => None,
    }
}

/// Array items that are all strings.
pub open spec fn str_items(items: Seq<JsonValue>) -> Option<Seq<String>> {
    items_of(items, |v: JsonValue| str_item(v))
}

pub open spec fn as_str_array(v: Option<JsonValue>) -> Option<Seq<String>> {
    match v {
        Some(JsonValue::Array(items)) => str_items(items@),
        _ => None,
    }
}

/// Finds the first member named `key`.
pub fn get<'a>(entries: &'a Vec<(String, JsonValue)>, key: &str) -> (r: Option<&'a JsonValue>)
    ensures
        r matches Some(v) ==> field(entries@, key@) == Some(*v),
        r is None ==> field(entries@, key@) is None,
{
    let k = String::from_str(key);
    let mut i: usize = 0;
    proof {
        assert(entries@.subrange(0, entries@.len() as int) =~= entries@);
    }
    while i < entries.len()
        invariant
            i <= entries@.len(),
            k@ == key@,
            field(entries@, key@) == field(entries@.subrange(i as int, entries@.len() as int), key@),
        decreases entries.len() - i,
    {
        proof {
            let rest = entries@.subrange(i as int, entries@.len() as int);
            assert(rest.drop_first() =~= entries@.subrange(i as int + 1, entries@.len() as int));
        }
        if entries[i].0 == k {
            return Some(&entries[i].1);
        }
        i = i + 1;
    }
    None
}

pub fn get_str(entries: &Vec<(String, JsonValue)>, key: &str) -> (r: Option<String>)
    ensures
        r == as_str(field(entries@, key@)),
{
    match get(entries, key) {
        Some(JsonValue::Str(s)) => Some(s.clone()),
        _ => None,
    }
}

pub fn get_u64(entries: &Vec<(String, JsonValue)>, key: &str) -> (r: Option<u64>)
    ensures
        r == as_u64(field(entries@, key@)),
{
    match get(entries, key) {
        Some(JsonValue::Number(n)) => n.unsigned,
        _ => None,
    }
}

pub fn get_bool(entries: &Vec<(String, JsonValue)>, key: &str) -> (r: Option<bool>)
    ensures
        r == as_bool(field(entries@, key@)),
{
    match get(entries, key) {
        Some(JsonValue::Bool(b)) => Some(*b),
        _ => None,
    }
}

pub fn get_number_text(entries: &Vec<(String, JsonValue)>, key: &str) -> (r: Option<String>)
    ensures
        r == as_number_text(field(entries@, key@)),
{
    match get(entries, key) {
        Some(JsonValue::Number(n)) => Some(n.text.clone()),
        _ => None,
    }
}

fn absent(v: Option<&JsonValue>) -> (r: bool)
    ensures
        r == is_absent(match v {
            Some(x) => Some(*x),
            None => None,
        }),
{
    match v {
        None => true,
        Some(JsonValue::Null) => true,
        _ => false,
    }
}

pub fn get_opt_u64(entries: &Vec<(String, JsonValue)>, key: &str) -> (r: Option<Option<u64>>)
    ensures
        r == as_opt_u64(field(entries@, key@)),
{
    if absent(get(entries, key)) {
        Some(None)
    } else {
        match get_u64(entries, key) {
            Some(n) => Some(Some(n)),
            None => None,
        }
    }
}

pub fn get_opt_bool(entries: &Vec<(String, JsonValue)>, key: &str) -> (r: Option<Option<bool>>)
    ensures
        r == as_opt_bool(field(entries@, key@)),
{
    if absent(get(entries, key)) {
        Some(None)
    } else {
        match get_bool(entries, key) {
            Some(b) => Some(Some(b)),
            None => None,
        }
    }
}

pub fn get_opt_str(entries: &Vec<(String, JsonValue)>, key: &str) -> (r: Option<Option<String>>)
    ensures
        r == as_opt_str(field(entries@, key@)),
{
    if absent(get(entries, key)) {
        Some(None)
    } else {
        match get_str(entries, key) {
            Some(s) => Some(Some(s)),
            None => None,
        }
    }
}

/// The strings of an array whose items are all strings.
pub fn str_array(items: &Vec<JsonValue>) -> (r: Option<Vec<String>>)
    ensures
        r matches Some(v) ==> str_items(items@) == Some(v@),
        r is None ==> str_items(items@) is None,
{
    let mut out: Vec<String> = Vec::new();
    let mut i: usize = 0;
    while i < items.len()
        invariant
            i <= items@.len(),
            str_items(items@.take(i as int)) == Some(out@),
        decreases items.len() - i,
    {
        proof {
            assert(items@.take(i as int + 1).drop_last() =~= items@.take(i as int));
        }
        match &items[i] {
            JsonValue::Str(s) => {
                out.push(s.clone());
            },
            _ => {
                proof {
                    lemma_items_of_prefix(items@, |v: JsonValue| str_item(v), i as int + 1);
                }
                return None;
            },
        }
        i = i + 1;
    }
    proof {
        assert(items@.take(items@.len() as int) =~= items@);
    }
    Some(out)
}

pub fn get_str_array(entries: &Vec<(String, JsonValue)>, key: &str) -> (r: Option<Vec<String>>)
    ensures
        r matches Some(v) ==> as_str_array(field(entries@, key@)) == Some(v@),
        r is None ==> as_str_array(field(entries@, key@)) is None,
{
    match get(entries, key) {
        Some(JsonValue::Array(items)) => str_array(items),
        _ => None,
    }
}

} // verus!
