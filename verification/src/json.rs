//! JSON documents as the library reads and builds them, with their
//! mathematical view, lookups, and parsing through `serde_json`.
use vstd::prelude::*;
use crate::text::str_eq;

verus! {

/// A JSON number. Parsed numbers keep the text `serde_json` prints for them;
/// numbers the library builds are either an unsigned integer or the value of
/// an `f32`, given by its bits.
#[derive(Clone, Debug, PartialEq)]
pub enum JsonNumber {
    Text(String),
    Unsigned(u64),
    Float32Bits(u32),
}

/// A JSON document. Object members keep their order; a parsed object has no
/// key twice.
#[derive(Debug, PartialEq)]
pub enum JsonValue {
    Null,
    Bool(bool),
    Number(JsonNumber),
    Str(String),
    Array(Vec<JsonValue>),
    Object(Vec<(String, JsonValue)>),
}

pub ghost enum JsonNum {
    Text(Seq<char>),
    Unsigned(u64),
    Float32Bits(u32),
}

/// The mathematical view of a JSON document.
pub ghost enum Json {
    Null,
    Bool(bool),
    Number(JsonNum),
    Str(Seq<char>),
    Array(Seq<Json>),
    Object(Seq<(Seq<char>, Json)>),
}

pub open spec fn number_view(n: JsonNumber) -> JsonNum {
    match n {
        JsonNumber::Text(t) => JsonNum::Text(t@),
        JsonNumber::Unsigned(u) => JsonNum::Unsigned(u),
        JsonNumber::Float32Bits(b) => JsonNum::Float32Bits(b),
    }
}

pub open spec fn json_view(v: JsonValue) -> Json
    decreases v,
{
    match v {
        JsonValue::Null => Json::Null,
        JsonValue::Bool(b) => Json::Bool(b),
        JsonValue::Number(n) => Json::Number(number_view(n)),
        JsonValue::Str(s) => Json::Str(s@),
        JsonValue::Array(items) => Json::Array(items_view(items@)),
        JsonValue::Object(fields) => Json::Object(fields_view(fields@)),
    }
}

pub open spec fn items_view(items: Seq<JsonValue>) -> Seq<Json>
    decreases items,
{
    if items.len() == 0 {
        Seq::empty()
    } else {
        seq![json_view(items[0])] + items_view(items.drop_first())
    }
}

pub open spec fn fields_view(fields: Seq<(String, JsonValue)>) -> Seq<(Seq<char>, Json)>
    decreases fields,
{
    if fields.len() == 0 {
        Seq::empty()
    } else {
        seq![(fields[0].0@, json_view(fields[0].1))] + fields_view(fields.drop_first())
    }
}

impl View for JsonValue {
    type V = Json;

    open spec fn view(&self) -> Json {
        json_view(*self)
    }
}

pub proof fn lemma_items_view(items: Seq<JsonValue>)
    ensures
        items_view(items).len() == items.len(),
        forall|i: int| 0 <= i < items.len() ==> #[trigger] items_view(items)[i] == json_view(items[i]),
    decreases items.len(),
{
    if items.len() > 0 {
        lemma_items_view(items.drop_first());
        assert forall|i: int| 0 <= i < items.len() implies #[trigger] items_view(items)[i]
            == json_view(items[i]) by {
            if i > 0 {
                assert(items.drop_first()[i - 1] == items[i]);
            }
        }
    }
}

pub proof fn lemma_fields_view(fields: Seq<(String, JsonValue)>)
    ensures
        fields_view(fields).len() == fields.len(),
        forall|i: int| 0 <= i < fields.len() ==> #[trigger] fields_view(fields)[i] == (fields[i].0@, json_view(fields[i].1)),
    decreases fields.len(),
{
    if fields.len() > 0 {
        lemma_fields_view(fields.drop_first());
        assert forall|i: int| 0 <= i < fields.len() implies #[trigger] fields_view(fields)[i] == (
        fields[i].0@, json_view(fields[i].1)) by {
            if i > 0 {
                assert(fields.drop_first()[i - 1] == fields[i]);
            }
        }
    }
}

/// The value of the first member named `key` among `fields`.
pub open spec fn first_field(fields: Seq<(Seq<char>, Json)>, key: Seq<char>) -> Option<Json>
    decreases fields.len(),
{
    if fields.len() == 0 {
        None
    } else if fields[0].0 == key {
        Some(fields[0].1)
    } else {
        first_field(fields.drop_first(), key)
    }
}

/// The first member named `key` is the one at `i`.
pub proof fn lemma_first_field_at(fields: Seq<(Seq<char>, Json)>, key: Seq<char>, i: int)
    requires
        0 <= i < fields.len(),
        fields[i].0 == key,
        forall|j: int| 0 <= j < i ==> (#[trigger] fields[j]).0 != key,
    ensures
        first_field(fields, key) == Some(fields[i].1),
    decreases i,
{
    if i > 0 {
        let rest = fields.drop_first();
        assert forall|j: int| 0 <= j < i - 1 implies (#[trigger] rest[j]).0 != key by {
            assert(rest[j] == fields[j + 1]);
        }
        assert(rest[i - 1] == fields[i]);
        lemma_first_field_at(rest, key, i - 1);
    }
}

/// No member is named `key`.
pub proof fn lemma_first_field_absent(fields: Seq<(Seq<char>, Json)>, key: Seq<char>)
    requires
        forall|j: int| 0 <= j < fields.len() ==> (#[trigger] fields[j]).0 != key,
    ensures
        first_field(fields, key) is None,
    decreases fields.len(),
{
    if fields.len() > 0 {
        let rest = fields.drop_first();
        assert forall|j: int| 0 <= j < rest.len() implies (#[trigger] rest[j]).0 != key by {
            assert(rest[j] == fields[j + 1]);
        }
        lemma_first_field_absent(rest, key);
    }
}

/// `Value::get` with a string key: the member `key` of an object, and
/// nothing for any other value.
pub open spec fn json_get(v: Json, key: Seq<char>) -> Option<Json> {
    match v {
        Json::Object(fields) => first_field(fields, key),
        _ => None,
    }
}

/// `Value::as_str`.
pub open spec fn json_as_str(v: Json) -> Option<Seq<char>> {
    match v {
        Json::Str(s) => Some(s),
        _ => None,
    }
}

/// `Value::as_array`.
pub open spec fn json_as_array(v: Json) -> Option<Seq<Json>> {
    match v {
        Json::Array(items) => Some(items),
        _ => None,
    }
}

/// `json_get` on an optional value, as `Option::and_then` chains it.
pub open spec fn opt_get(v: Option<Json>, key: Seq<char>) -> Option<Json> {
    match v {
        Some(j) => json_get(j, key),
        None => None,
    }
}

pub open spec fn opt_as_str(v: Option<Json>) -> Option<Seq<char>> {
    match v {
        Some(j) => json_as_str(j),
        None => None,
    }
}

pub open spec fn opt_as_array(v: Option<Json>) -> Option<Seq<Json>> {
    match v {
        Some(j) => json_as_array(j),
        None => None,
    }
}

/// The first element of an optional array.
pub open spec fn opt_first(v: Option<Seq<Json>>) -> Option<Json> {
    match v {
        Some(items) => if items.len() > 0 {
            Some(items[0])
        } else {
            None
        },
        None => None,
    }
}

/// What `serde_json::from_str::<serde_json::Value>` gives for `text`: the
/// document, or the text of its error.
pub uninterp spec fn parsed_json(text: Seq<char>) -> Result<Json, Seq<char>>;

/// `serde_json::from_str::<serde_json::Value>`. The claim: the document it
/// returns, read through `json_from_serde`, and the `Display` text of the
/// error it returns, are the name `parsed_json` of the input, which depends
/// on nothing else. Nothing is claimed of what that name is.
#[verifier::external_body]
pub fn parse_json(text: &str) -> (r: Result<JsonValue, String>)
    ensures
        match r {
            Ok(v) => parsed_json(text@) == Ok::<Json, Seq<char>>(v@),
            Err(e) => parsed_json(text@) == Err::<Json, Seq<char>>(e@),
        },
{
    match serde_json::from_str::<serde_json::Value>(text) {
        Ok(v) => Ok(json_from_serde(&v)),
        Err(e) => Err(e.to_string()),
    }
}

/// `serde_json::Value`, carried only into `json_from_serde`.
#[verifier::external_type_specification]
#[verifier::external_body]
pub struct ExSerdeJsonValue(serde_json::Value);

/// Rewrites a `serde_json::Value` as a `JsonValue`, variant by variant: an
/// object's members come in the map's order, a number as its `Display` text.
/// Only `parse_json` calls it; it claims nothing.
#[verifier::external_body]
fn json_from_serde(v: &serde_json::Value) -> JsonValue {
    match v {
        serde_json::Value::Null => JsonValue::Null,
        serde_json::Value::Bool(b) => JsonValue::Bool(*b),
        serde_json::Value::Number(n) => JsonValue::Number(JsonNumber::Text(n.to_string())),
        serde_json::Value::String(s) => JsonValue::Str(s.clone()),
        serde_json::Value::Array(a) => JsonValue::Array(a.iter().map(json_from_serde).collect()),
        serde_json::Value::Object(m) => JsonValue::Object(
            m.iter().map(|(k, x)| (k.clone(), json_from_serde(x))).collect(),
        ),
    }
}

impl JsonValue {
    /// A JSON string holding `s`.
    pub fn string(s: &str) -> (j: JsonValue)
        ensures
            j@ == Json::Str(s@),
    {
        JsonValue::Str(s.to_owned())
    }

    /// A JSON object with these members, in this order.
    pub fn object(fields: Vec<(String, JsonValue)>) -> (j: JsonValue)
        ensures
            j@ == Json::Object(fields_view(fields@)),
    {
        JsonValue::Object(fields)
    }

    /// A JSON array with these elements.
    pub fn array(items: Vec<JsonValue>) -> (j: JsonValue)
        ensures
            j@ == Json::Array(items_view(items@)),
    {
        JsonValue::Array(items)
    }

    /// The first element of a JSON array held in a vector.
    pub fn first_of(items: &Vec<JsonValue>) -> (r: Option<&JsonValue>)
        ensures
            match r {
                Some(x) => items@.len() > 0 && items_view(items@)[0] == x@,
                None => items@.len() == 0,
            },
    {
        proof {
            lemma_items_view(items@);
        }
        if items.len() > 0 {
            Some(&items[0])
        } else {
            None
        }
    }

    /// `Value::get` with a string key.
    pub fn get(&self, key: &str) -> (r: Option<&JsonValue>)
        ensures
            match r {
                Some(x) => json_get(self@, key@) == Some(x@),
                None => json_get(self@, key@) is None,
            },
    {
        match self {
            JsonValue::Object(fields) => {
                proof {
                    lemma_fields_view(fields@);
                }
                let ghost fv = fields_view(fields@);
                assert(fv.subrange(0, fv.len() as int) =~= fv);
                assert(self@ == Json::Object(fv));
                let mut i: usize = 0;
                while i < fields.len()
                    invariant
                        self@ == Json::Object(fv),
                        fv == fields_view(fields@),
                        fv.len() == fields@.len(),
                        forall|j: int| 0 <= j < fields@.len() ==> #[trigger] fv[j] == (fields@[j].0@, json_view(fields@[j].1)),
                        0 <= i <= fields.len(),
                        first_field(fv, key@) == first_field(fv.subrange(i as int, fv.len() as int), key@),
                    decreases fields.len() - i,
                {
                    let ghost rest = fv.subrange(i as int, fv.len() as int);
                    assert(rest[0] == fv[i as int]);
                    if str_eq(fields[i].0.as_str(), key) {
                        assert(rest[0].0 == key@);
                        assert(first_field(rest, key@) == Some(rest[0].1));
                        assert(rest[0].1 == json_view(fields@[i as int].1));
                        return Some(&fields[i].1);
                    }
                    assert(rest.drop_first() =~= fv.subrange(i + 1, fv.len() as int));
                    i = i + 1;
                }
                None
            },
            _ => None,
        }
    }

    /// `Value::as_str`.
    pub fn as_str(&self) -> (r: Option<&String>)
        ensures
            match r {
                Some(s) => json_as_str(self@) == Some(s@),
                None => json_as_str(self@) is None,
            },
    {
        match self {
            JsonValue::Str(s) => Some(s),
            _ => None,
        }
    }

    /// `Value::as_array`.
    pub fn as_array(&self) -> (r: Option<&Vec<JsonValue>>)
        ensures
            match r {
                Some(items) => json_as_array(self@) == Some(items_view(items@)),
                None => json_as_array(self@) is None,
            },
    {
        match self {
            JsonValue::Array(items) => Some(items),
            _ => None,
        }
    }
}

} // verus!
