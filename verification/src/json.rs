//! JSON documents, as far as records are made of them. The documents are
//! read and written by `serde_json`; what this module states of it is assumed,
//! not proved.

use vstd::prelude::*;

verus! {

/// The shape of a JSON document. A number stands here as the characters that
/// `serde_json` prints for it.
pub enum JsonTree {
    Null,
    Bool(bool),
    Number(Seq<char>),
    Text(Seq<char>),
    Array(Seq<JsonTree>),
    Object(Map<Seq<char>, JsonTree>),
}

impl JsonTree {
    /// The member of an object under `key`, where this is an object that has
    /// one.
    pub open spec fn member(self, key: Seq<char>) -> Option<JsonTree> {
        match self {
            JsonTree::Object(members) => if members.contains_key(key) {
                Some(members[key])
            } else {
                None
            },
            _ => None,
        }
    }

    /// The items of an array, where this is one.
    pub open spec fn items(self) -> Option<Seq<JsonTree>> {
        match self {
            JsonTree::Array(items) => Some(items),
            _ => None,
        }
    }

    /// The characters of a string, where this is one.
    pub open spec fn text(self) -> Option<Seq<char>> {
        match self {
            JsonTree::Text(text) => Some(text),
            _ => None,
        }
    }
}

/// `serde_json::Value`, a JSON document in memory. Nothing is seen of what
/// is inside but through `json_tree`.
#[verifier::external_type_specification]
#[verifier::external_body]
pub struct ExValue(serde_json::Value);

/// `serde_json::Error`, what reading or writing a document may fail with.
/// Nothing is seen of what is inside.
#[verifier::external_type_specification]
#[verifier::external_body]
pub struct ExError(serde_json::Error);

/// The shape of a `serde_json::Value`: what the value holds.
pub uninterp spec fn json_tree(value: serde_json::Value) -> JsonTree;

/// The shape of the document that `serde_json::from_str` reads out of a text,
/// or `None` where it reports an error.
pub uninterp spec fn json_document(text: Seq<char>) -> Option<JsonTree>;

/// The shapes of a run of values.
pub open spec fn json_trees(values: Seq<serde_json::Value>) -> Seq<JsonTree> {
    Seq::new(values.len(), |i: int| json_tree(values[i]))
}

/// Calls `serde_json::from_str` for a `Value`. What it returns depends on
/// the text alone: a value of the document's shape, or an error.
#[verifier::external_body]
pub(crate) fn parse_document(text: &str) -> (parsed: Result<serde_json::Value, serde_json::Error>)
    ensures
        match parsed {
            Ok(value) => json_document(text@) == Some(json_tree(value)),
            Err(_) => json_document(text@) is None,
        },
{
    serde_json::from_str::<serde_json::Value>(text)
}

/// Calls `Value::get` with a string key. It returns the member under that
/// key where the value is an object that has one, and `None` otherwise.
#[verifier::external_body]
pub(crate) fn member_of<'a>(value: &'a serde_json::Value, key: &str) -> (found: Option<
    &'a serde_json::Value,
>)
    ensures
        match found {
            Some(inner) => json_tree(*value).member(key@) == Some(json_tree(*inner)),
            None => json_tree(*value).member(key@) is None,
        },
{
    value.get(key)
}

/// `Value::as_array` returns the items where the value is an array, and
/// `None` otherwise.
pub assume_specification[ serde_json::Value::as_array ](value: &serde_json::Value) -> (items:
    Option<&Vec<serde_json::Value>>)
    ensures
        match items {
            Some(list) => json_tree(*value).items() == Some(json_trees(list@)),
            None => json_tree(*value).items() is None,
        },
;

/// `Value::as_str` returns the characters where the value is a string, and
/// `None` otherwise.
pub assume_specification[ serde_json::Value::as_str ](value: &serde_json::Value) -> (text:
    Option<&str>)
    ensures
        match text {
            Some(chars) => json_tree(*value).text() == Some(chars@),
            None => json_tree(*value).text() is None,
        },
;

/// The text that `serde_json::to_string` writes for a value of the given
/// shape.
pub uninterp spec fn json_text(tree: JsonTree) -> Seq<char>;

/// Whether no two of the members have the same key.
pub open spec fn distinct_keys(members: Seq<(String, serde_json::Value)>) -> bool {
    forall|i: int, j: int|
        0 <= i < j < members.len() ==> (#[trigger] members[i]).0@ != (#[trigger] members[j]).0@
}

/// Whether `tree` is the object that has exactly the given members.
pub open spec fn is_object_of(tree: JsonTree, members: Seq<(String, serde_json::Value)>) -> bool {
    &&& tree is Object
    &&& forall|key: Seq<char>| #[trigger]
        tree->Object_0.contains_key(key) <==> exists|i: int|
            0 <= i < members.len() && (#[trigger] members[i]).0@ == key
    &&& forall|i: int|
        0 <= i < members.len() ==> tree->Object_0[(#[trigger] members[i]).0@] == json_tree(
            members[i].1,
        )
}

/// Makes the `Value` that is a string of the given characters.
#[verifier::external_body]
pub(crate) fn text_value(text: String) -> (value: serde_json::Value)
    ensures
        json_tree(value) == JsonTree::Text(text@),
{
    serde_json::Value::String(text)
}

/// Makes the `Value` that is an array of the given items, in their order.
#[verifier::external_body]
pub(crate) fn array_value(items: Vec<serde_json::Value>) -> (value: serde_json::Value)
    ensures
        json_tree(value) == JsonTree::Array(json_trees(items@)),
{
    serde_json::Value::Array(items)
}

/// Makes the `Value` that is an object of the given members, collected into
/// a `serde_json::Map`. The keys must differ from each other.
#[verifier::external_body]
pub(crate) fn object_value(members: Vec<(String, serde_json::Value)>) -> (value:
    serde_json::Value)
    requires
        distinct_keys(members@),
    ensures
        is_object_of(json_tree(value), members@),
{
    serde_json::Value::Object(members.into_iter().collect())
}

/// Calls `serde_json::to_string` on a `Value`. It succeeds on every value:
/// the text is written into memory, the keys of a `Value` are strings, and
/// `Value` reports no error of its own while it is written. The text depends
/// on the shape of the value alone: the items of an array are written in
/// their order, the members of an object in the order of their keys.
#[verifier::external_body]
pub(crate) fn render_document(value: &serde_json::Value) -> (rendered: Result<
    String,
    serde_json::Error,
>)
    ensures
        rendered is Ok,
        rendered matches Ok(text) ==> text@ == json_text(json_tree(*value)),
{
    serde_json::to_string(value)
}

} // verus!
