//! JSON documents as mathematical values, and the calls that read, build,
//! parse and print them.
//!
//! A `serde_json::Value` is opaque to the verifier. What it holds is spoken of
//! through `document`, which gives the value as a `Json`; the contracts of the
//! calls below say how each of them reads or makes that document.
use serde_json::Value;
use vstd::prelude::*;

verus! {

/// A JSON document.
pub enum Json {
    Null,
    Bool(bool),
    /// A number held as a 64-bit integer, signed or unsigned.
    Integer(int),
    /// Any other number, by the bit pattern of the double that holds it.
    Float(u64),
    Text(Seq<char>),
    Array(Seq<Json>),
    Object(Map<Seq<char>, Json>),
}

/// A value of serde_json. What it holds is read through the calls below.
#[verifier::external_type_specification]
#[verifier::external_body]
pub struct ExJsonValue(serde_json::Value);

/// The error of serde_json. It is carried, never read.
#[verifier::external_type_specification]
#[verifier::external_body]
pub struct ExJsonError(serde_json::Error);

/// The document that a value holds.
pub uninterp spec fn document(v: Value) -> Json;

/// The document that a text denotes, or `None` where the text is not JSON.
pub uninterp spec fn json_parsed(text: Seq<char>) -> Option<Json>;

/// The compact text of a document.
pub uninterp spec fn json_printed(doc: Json) -> Seq<char>;

/// The documents that a sequence of values holds.
pub open spec fn documents(items: Seq<Value>) -> Seq<Json> {
    items.map_values(|v: Value| document(v))
}

/// The member of an object under `key`; `None` for a missing key and for
/// anything that is not an object.
pub open spec fn member(doc: Json, key: Seq<char>) -> Option<Json> {
    match doc {
        Json::Object(members) => if members.contains_key(key) {
            Some(members[key])
        } else {
            None
        },
        _ => None,
    }
}

/// The text of a string document.
pub open spec fn as_text(doc: Json) -> Option<Seq<char>> {
    match doc {
        Json::Text(s) => Some(s),
        _ => None,
    }
}

/// The value of an integer document that fits `u64`.
pub open spec fn as_u64(doc: Json) -> Option<u64> {
    match doc {
        Json::Integer(n) => if 0 <= n <= u64::MAX {
            Some(n as u64)
        } else {
            None
        },
        _ => None,
    }
}

/// The value of an integer document that fits `i64`.
pub open spec fn as_i64(doc: Json) -> Option<i64> {
    match doc {
        Json::Integer(n) => if i64::MIN <= n <= i64::MAX {
            Some(n as i64)
        } else {
            None
        },
        _ => None,
    }
}

/// The elements of an array document.
pub open spec fn as_items(doc: Json) -> Option<Seq<Json>> {
    match doc {
        Json::Array(items) => Some(items),
        _ => None,
    }
}

/// Deepest nesting of arrays and objects that the parser follows.
pub const MAX_NESTING: u64 = 127;

/// A document without a `Float` anywhere in it, whose arrays and objects are
/// nested at most `depth` deep.
pub open spec fn is_exact(doc: Json, depth: nat) -> bool
    decreases depth,
{
    match doc {
        Json::Float(_) => false,
        Json::Array(items) => depth > 0 && forall|i: int|
            0 <= i < items.len() ==> is_exact(#[trigger] items[i], (depth - 1) as nat),
        Json::Object(members) => depth > 0 && forall|k: Seq<char>|
            members.contains_key(k) ==> is_exact(#[trigger] members[k], (depth - 1) as nat),
        _ => true,
    }
}

/// A document that is read back from its text as it was: one without a
/// `Float`, nested no deeper than the parser follows.
pub open spec fn reads_back(doc: Json) -> bool {
    is_exact(doc, MAX_NESTING as nat)
}

/// The keys of `pairs` and the documents of their values.
pub open spec fn pair_documents(pairs: Seq<(String, Value)>) -> Seq<(Seq<char>, Json)> {
    pairs.map_values(|p: (String, Value)| (p.0@, document(p.1)))
}

/// No key occurs twice in `pairs`.
pub open spec fn distinct_keys(pairs: Seq<(Seq<char>, Json)>) -> bool {
    forall|i: int, j: int|
        0 <= i < j < pairs.len() ==> (#[trigger] pairs[i]).0 != (#[trigger] pairs[j]).0
}

/// The object with the members `pairs`, a later pair replacing an earlier one
/// of the same key.
pub open spec fn object_of(pairs: Seq<(Seq<char>, Json)>) -> Map<Seq<char>, Json>
    decreases pairs.len(),
{
    if pairs.len() == 0 {
        Map::empty()
    } else {
        object_of(pairs.drop_last()).insert(pairs.last().0, pairs.last().1)
    }
}

/// `serde_json::from_str` to a `Value`. Claimed: whether it succeeds, and the
/// document of the value, are a function of the text.
#[verifier::external_body]
pub(crate) fn parse(text: &str) -> (res: Result<Value, serde_json::Error>)
    ensures
        res is Ok <==> json_parsed(text@) is Some,
        res matches Ok(v) ==> json_parsed(text@) == Some(document(v)),
{
    serde_json::from_str::<Value>(text)
}

/// `to_string` of a `Value`, which prints it compactly, the members of an
/// object in the order of their keys. Claimed: the text is a function of the
/// document and holds no line feed; a document without a `Float`, nested at
/// most 127 deep, is parsed back from it.
#[verifier::external_body]
pub(crate) fn print(v: &Value) -> (text: String)
    ensures
        text@ == json_printed(document(*v)),
        !text@.contains('\n'),
        reads_back(document(*v)) ==> json_parsed(text@) == Some(document(*v)),
{
    v.to_string()
}

/// `Value::get` with a string key, handing back a copy of the member: the
/// member of an object under that key, and nothing of any other value.
#[verifier::external_body]
pub(crate) fn get(v: &Value, key: &str) -> (r: Option<Value>)
    ensures
        r is Some <==> member(document(*v), key@) is Some,
        r matches Some(m) ==> member(document(*v), key@) == Some(document(m)),
{
    v.get(key).cloned()
}

/// `Value::is_null`: whether the value is `null`.
#[verifier::external_body]
pub(crate) fn is_null(v: &Value) -> (b: bool)
    ensures
        b <==> document(*v) is Null,
{
    v.is_null()
}

/// `Value::is_object`: whether the value is an object.
#[verifier::external_body]
pub(crate) fn is_object(v: &Value) -> (b: bool)
    ensures
        b <==> document(*v) is Object,
{
    v.is_object()
}

/// `Value::as_str`, handing back a copy of the string: the text of a string,
/// and nothing of any other value.
#[verifier::external_body]
pub(crate) fn get_text(v: &Value) -> (r: Option<String>)
    ensures
        r is Some <==> as_text(document(*v)) is Some,
        r matches Some(s) ==> as_text(document(*v)) == Some(s@),
{
    v.as_str().map(|s| s.to_owned())
}

/// `Value::as_u64`: the number, where it is an integer from 0 to 2^64 - 1.
#[verifier::external_body]
pub(crate) fn get_u64(v: &Value) -> (r: Option<u64>)
    ensures
        r == as_u64(document(*v)),
{
    v.as_u64()
}

/// `Value::as_i64`: the number, where it is an integer from -2^63 to 2^63 - 1.
#[verifier::external_body]
pub(crate) fn get_i64(v: &Value) -> (r: Option<i64>)
    ensures
        r == as_i64(document(*v)),
{
    v.as_i64()
}

/// `Value::as_array`, handing back a copy of the elements: those of an
/// array, and nothing of any other value.
#[verifier::external_body]
pub(crate) fn get_items(v: &Value) -> (r: Option<Vec<Value>>)
    ensures
        r is Some <==> as_items(document(*v)) is Some,
        r matches Some(items) ==> as_items(document(*v)) == Some(documents(items@)),
{
    v.as_array().cloned()
}

/// `Clone::clone` of a `Value`. Claimed: the copy is the value.
pub assume_specification[ <serde_json::Value as Clone>::clone ](v: &serde_json::Value) -> (r:
    serde_json::Value)
    ensures
        r == *v,
;

/// The variant `Value::Null`: the value `null`.
#[verifier::external_body]
pub(crate) fn null() -> (v: Value)
    ensures
        document(v) == Json::Null,
{
    Value::Null
}

/// The variant `Value::String`, around a copy of `s`: the string `s`.
#[verifier::external_body]
pub(crate) fn text(s: &str) -> (v: Value)
    ensures
        document(v) == Json::Text(s@),
{
    Value::String(s.to_owned())
}

/// `Value::from` a `u64`: the number `n`, held as an integer.
#[verifier::external_body]
pub(crate) fn integer(n: u64) -> (v: Value)
    ensures
        document(v) == Json::Integer(n as int),
{
    Value::from(n)
}

/// The variant `Value::Array`: the array of the given elements.
#[verifier::external_body]
pub(crate) fn array(items: Vec<Value>) -> (v: Value)
    ensures
        document(v) == Json::Array(documents(items@)),
{
    Value::Array(items)
}

/// `Value::from_iter` over pairs of key and value, which makes an object.
/// Claimed for pairs whose keys differ: the object has exactly these members.
#[verifier::external_body]
pub(crate) fn object(pairs: Vec<(String, Value)>) -> (v: Value)
    ensures
        document(v) is Object,
        distinct_keys(pair_documents(pairs@)) ==> document(v) == Json::Object(
            object_of(pair_documents(pairs@)),
        ),
{
    Value::from_iter(pairs)
}

/// Every key of `pairs` is a key of the object that they make.
pub proof fn lemma_object_of_keys(pairs: Seq<(Seq<char>, Json)>, i: int)
    requires
        0 <= i < pairs.len(),
    ensures
        object_of(pairs).contains_key(pairs[i].0),
    decreases pairs.len(),
{
    if i < pairs.len() - 1 {
        lemma_object_of_keys(pairs.drop_last(), i);
    }
}

/// The members of an object in the making.
pub(crate) struct Members {
    pairs: Vec<(String, Value)>,
}

impl Members {
    /// No key was given twice.
    pub(crate) closed spec fn wf(&self) -> bool {
        distinct_keys(pair_documents(self.pairs@))
    }

    /// The members given so far, by their keys.
    pub(crate) closed spec fn members(&self) -> Map<Seq<char>, Json> {
        object_of(pair_documents(self.pairs@))
    }

    /// No members yet.
    pub(crate) fn new() -> (m: Self)
        ensures
            m.wf(),
            m.members() == Map::<Seq<char>, Json>::empty(),
    {
        Members { pairs: Vec::new() }
    }

    /// One member more, under a key that was not given before.
    pub(crate) fn with(self, key: &str, value: Value) -> (m: Self)
        requires
            self.wf(),
            !self.members().contains_key(key@),
        ensures
            m.wf(),
            m.members() == self.members().insert(key@, document(value)),
    {
        let mut pairs = self.pairs;
        pairs.push((key.to_owned(), value));
        proof {
            let before = pair_documents(self.pairs@);
            let after = pair_documents(pairs@);
            assert(after.drop_last() =~= before);
            assert forall|i: int, j: int| 0 <= i < j < after.len() implies (#[trigger] after[i]).0
                != (#[trigger] after[j]).0 by {
                if j == after.len() - 1 {
                    lemma_object_of_keys(before, i);
                } else {
                    assert(before[i].0 != before[j].0);
                }
            }
        }
        Members { pairs }
    }

    /// The object of these members.
    pub(crate) fn into_value(self) -> (v: Value)
        requires
            self.wf(),
        ensures
            document(v) == Json::Object(self.members()),
    {
        object(self.pairs)
    }
}

} // verus!
