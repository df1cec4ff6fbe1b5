use vstd::prelude::*;
use vstd::string::*;

verus! {

/// A plain JSON tree, as the library holds it in memory.
///
/// Numbers are kept in the exact integer form the source gave: a
/// non-negative integer as `UInt`, a negative one as `Int`, and any other
/// number (a fraction, an exponent, an integer outside both ranges) as
/// `Huge`, which no record field accepts.
#[derive(Debug, PartialEq)]
pub enum JsonValue {
    Null,
    Bool(bool),
    UInt(u64),
    Int(i64),
    Huge,
    Str(String),
    Arr(Vec<JsonValue>),
    Obj(Vec<(String, JsonValue)>),
}

/// Ghost image of a [`JsonValue`], with strings as character sequences.
pub enum JsonV {
    Null,
    Bool(bool),
    UInt(u64),
    Int(i64),
    Huge,
    Str(Seq<char>),
    Arr(Seq<JsonV>),
    Obj(Seq<(Seq<char>, JsonV)>),
}

impl View for JsonValue {
    type V = JsonV;

    open spec fn view(&self) -> JsonV
        decreases self,
    {
        match self {
            JsonValue::Null => JsonV::Null,
            JsonValue::Bool(b) => JsonV::Bool(*b),
            JsonValue::UInt(u) => JsonV::UInt(*u),
            JsonValue::Int(i) => JsonV::Int(*i),
            JsonValue::Huge => JsonV::Huge,
            JsonValue::Str(s) => JsonV::Str(s@),
            JsonValue::Arr(items) => JsonV::Arr(items_view(items@)),
            JsonValue::Obj(fields) => JsonV::Obj(fields_view(fields@)),
        }
    }
}

/// The ghost image of an array's item list.
pub open spec fn items_view(items: Seq<JsonValue>) -> Seq<JsonV>
    decreases items,
{
    Seq::new(
        items.len(),
        |i: int|
            if 0 <= i < items.len() {
                items[i]@
            } else {
                JsonV::Null
            },
    )
}

/// The ghost image of an object's field list.
pub open spec fn fields_view(fields: Seq<(String, JsonValue)>) -> Seq<(Seq<char>, JsonV)>
    decreases fields,
{
    Seq::new(
        fields.len(),
        |i: int|
            if 0 <= i < fields.len() {
                (fields[i].0@, fields[i].1@)
            } else {
                (Seq::empty(), JsonV::Null)
            },
    )
}

/// The value of the first field named `key`, scanning front to back.
pub open spec fn obj_lookup(fields: Seq<(Seq<char>, JsonV)>, key: Seq<char>) -> Option<JsonV>
    decreases fields.len(),
{
    if fields.len() == 0 {
        None
    } else if fields[0].0 == key {
        Some(fields[0].1)
    } else {
        obj_lookup(fields.subrange(1, fields.len() as int), key)
    }
}

/// Skipping a prefix that holds no field named `key` leaves the lookup
/// unchanged.
pub proof fn lemma_obj_lookup_skip(fields: Seq<(Seq<char>, JsonV)>, key: Seq<char>, i: int)
    requires
        0 <= i <= fields.len(),
        forall|j: int| 0 <= j < i ==> fields[j].0 != key,
    ensures
        obj_lookup(fields, key) == obj_lookup(fields.subrange(i, fields.len() as int), key),
    decreases i,
{
    if i == 0 {
        assert(fields.subrange(0, fields.len() as int) =~= fields);
    } else {
        lemma_obj_lookup_skip(fields, key, i - 1);
        let rest = fields.subrange(i - 1, fields.len() as int);
        assert(rest[0] == fields[i - 1]);
        assert(rest.subrange(1, rest.len() as int) =~= fields.subrange(i, fields.len() as int));
    }
}

/// A field at index `i` whose key is the first occurrence of `key` is what
/// the lookup returns.
pub proof fn lemma_obj_lookup_found(fields: Seq<(Seq<char>, JsonV)>, key: Seq<char>, i: int)
    requires
        0 <= i < fields.len(),
        forall|j: int| 0 <= j < i ==> fields[j].0 != key,
        fields[i].0 == key,
    ensures
        obj_lookup(fields, key) == Some(fields[i].1),
{
    lemma_obj_lookup_skip(fields, key, i);
    let rest = fields.subrange(i, fields.len() as int);
    assert(rest[0] == fields[i]);
}

/// A scan past the end without a match means the key is absent.
pub proof fn lemma_obj_lookup_absent(fields: Seq<(Seq<char>, JsonV)>, key: Seq<char>)
    requires
        forall|j: int| 0 <= j < fields.len() ==> fields[j].0 != key,
    ensures
        obj_lookup(fields, key) is None,
{
    lemma_obj_lookup_skip(fields, key, fields.len() as int);
}

#[verifier::external_type_specification]
#[verifier::external_body]
pub struct ExSerdeJsonValue(serde_json::Value);

/// The result of parsing a string as one JSON document: the tree it
/// denotes, or nothing when it is not valid JSON. It depends on the
/// characters alone.
pub uninterp spec fn json_parse(s: Seq<char>) -> Option<JsonV>;

/// Relies on `serde_json::Value`'s variants: converts the parsed value
/// one variant at a time into the library's own tree, keeping an integer
/// in its exact form and folding every other number into `Huge`.
#[verifier::external_body]
fn to_tree(v: &serde_json::Value) -> JsonValue {
    match v {
        serde_json::Value::Null => JsonValue::Null,
        serde_json::Value::Bool(b) => JsonValue::Bool(*b),
        serde_json::Value::Number(n) => match (n.as_u64(), n.as_i64()) {
            (Some(u), _) => JsonValue::UInt(u),
            (_, Some(i)) => JsonValue::Int(i),
            _ => JsonValue::Huge,
        },
        serde_json::Value::String(s) => JsonValue::Str(s.clone()),
        serde_json::Value::Array(a) => JsonValue::Arr(a.iter().map(to_tree).collect()),
        serde_json::Value::Object(m) => JsonValue::Obj(
            m.iter().map(|(k, x)| (k.clone(), to_tree(x))).collect(),
        ),
    }
}

/// Relies on `serde_json::from_str::<serde_json::Value>`: whether a string
/// is a valid JSON document, and the value it denotes, depend on the
/// characters alone; `json_parse` names that result as a plain tree. A
/// failure is handed back as the parse error's display text, of which
/// nothing is claimed.
#[verifier::external_body]
pub(crate) fn parse_json(s: &str) -> (r: Result<JsonValue, String>)
    ensures
        match r {
            Ok(v) => json_parse(s@) == Some(v@),
            Err(_) => json_parse(s@) is None,
        },
{
    match serde_json::from_str::<serde_json::Value>(s) {
        Ok(v) => Ok(to_tree(&v)),
        Err(e) => Err(e.to_string()),
    }
}

/// True of two string slices with the same characters.
pub fn str_eq(a: &str, b: &str) -> (r: bool)
    ensures
        r == (a@ == b@),
{
    let sa: String = a.to_owned();
    let sb: String = b.to_owned();
    sa == sb
}

/// Finds the first field named `key` in an object's field list.
pub fn find_field<'a>(fields: &'a Vec<(String, JsonValue)>, key: &str) -> (r: Option<
    &'a JsonValue,
>)
    ensures
        match r {
            Some(v) => obj_lookup(fields_view(fields@), key@) == Some(v@),
            None => obj_lookup(fields_view(fields@), key@) is None,
        },
{
    let ghost fv = fields_view(fields@);
    let mut i: usize = 0;
    while i < fields.len()
        invariant
            0 <= i <= fields.len(),
            fv == fields_view(fields@),
            forall|j: int| 0 <= j < i ==> fv[j].0 != key@,
        decreases fields.len() - i,
    {
        if str_eq(fields[i].0.as_str(), key) {
            proof {
                lemma_obj_lookup_found(fv, key@, i as int);
            }
            return Some(&fields[i].1);
        }
        i = i + 1;
    }
    proof {
        lemma_obj_lookup_absent(fv, key@);
    }
    None
}

} // verus!
