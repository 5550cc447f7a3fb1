//! JSON documents, held as `serde_json::Value` and stated over trees.
use vstd::prelude::*;

verus! {

/// `serde_json::Value`, a JSON value; Verus sees nothing inside it.
#[verifier::external_type_specification]
#[verifier::external_body]
pub struct ExValue(serde_json::Value);

/// A JSON value. A number is given by its text; the members of an object have no order.
pub enum JsonTree {
    Null,
    Bool(bool),
    Number(Seq<char>),
    Text(Seq<char>),
    Items(Seq<JsonTree>),
    Fields(Map<Seq<char>, JsonTree>),
}

impl JsonTree {
    /// The object without members.
    pub open spec fn object() -> JsonTree {
        JsonTree::Fields(Map::empty())
    }

    /// The object with one more member, in place of the member of the same name.
    pub open spec fn with(self, key: Seq<char>, value: JsonTree) -> JsonTree {
        JsonTree::Fields(self->Fields_0.insert(key, value))
    }

    /// The member of an object.
    pub open spec fn get(self, key: Seq<char>) -> Option<JsonTree> {
        match self {
            JsonTree::Fields(fields) => if fields.dom().contains(key) {
                Some(fields[key])
            } else {
                None
            },
            _ => None,
        }
    }

    /// The characters of a string.
    pub open spec fn text(self) -> Option<Seq<char>> {
        match self {
            JsonTree::Text(text) => Some(text),
            _ => None,
        }
    }

    /// The elements of an array.
    pub open spec fn items(self) -> Option<Seq<JsonTree>> {
        match self {
            JsonTree::Items(items) => Some(items),
            _ => None,
        }
    }
}

/// What a `serde_json::Value` holds.
pub uninterp spec fn json_tree(value: serde_json::Value) -> JsonTree;

/// What the values of a list hold.
pub open spec fn json_trees(values: Seq<serde_json::Value>) -> Seq<JsonTree> {
    values.map_values(|value: serde_json::Value| json_tree(value))
}

/// What an optional value holds.
pub open spec fn optional_tree(value: Option<&serde_json::Value>) -> Option<JsonTree> {
    match value {
        Some(value) => Some(json_tree(*value)),
        None => None,
    }
}

/// The value that `serde_json::from_str` reads from a text, or that it reads none.
pub uninterp spec fn json_document(text: Seq<char>) -> Option<JsonTree>;

/// `serde_json::from_str` into a `Value`: the JSON value that the text is, or nothing where the
/// text is no JSON document. The result depends on the text alone.
#[verifier::external_body]
pub(crate) fn parse(text: &str) -> (r: Option<serde_json::Value>)
    ensures
        match r {
            Some(value) => json_document(text@) == Some(json_tree(value)),
            None => json_document(text@) is None,
        },
{
    serde_json::from_str::<serde_json::Value>(text).ok()
}

/// `Value::get` with a name: the member of an object of that name; nothing of another value.
#[verifier::external_body]
pub(crate) fn get<'a>(value: &'a serde_json::Value, key: &str) -> (r: Option<&'a serde_json::Value>)
    ensures
        optional_tree(r) == json_tree(*value).get(key@),
{
    value.get(key)
}

/// `Value::as_str`: the characters of a string; nothing of another value.
pub assume_specification[ serde_json::Value::as_str ](value: &serde_json::Value) -> (r: Option<
    &str,
>)
    ensures
        match r {
            Some(text) => json_tree(*value).text() == Some(text@),
            None => json_tree(*value).text() is None,
        },
;

/// `Value::as_array`: the elements of an array; nothing of another value.
pub assume_specification[ serde_json::Value::as_array ](value: &serde_json::Value) -> (r: Option<
    &Vec<serde_json::Value>,
>)
    ensures
        match r {
            Some(items) => json_tree(*value).items() == Some(json_trees(items@)),
            None => json_tree(*value).items() is None,
        },
;

/// `Value::Null`.
#[verifier::external_body]
pub(crate) fn null() -> (r: serde_json::Value)
    ensures
        json_tree(r) == JsonTree::Null,
{
    serde_json::Value::Null
}

/// `Value::from` a `bool`.
#[verifier::external_body]
pub(crate) fn boolean(b: bool) -> (r: serde_json::Value)
    ensures
        json_tree(r) == JsonTree::Bool(b),
{
    serde_json::Value::from(b)
}

/// `Value::from` an `i64`: the number, whose text is the integer in decimal notation.
#[verifier::external_body]
pub(crate) fn integer(n: i64) -> (r: serde_json::Value)
    ensures
        json_tree(r) == JsonTree::Number(crate::number::signed_spec(n as int)),
{
    serde_json::Value::from(n)
}

/// `Value::from` a `u64`: the number, whose text is the integer in decimal notation.
#[verifier::external_body]
pub(crate) fn natural(n: u64) -> (r: serde_json::Value)
    ensures
        json_tree(r) == JsonTree::Number(crate::number::decimal_spec(n as int)),
{
    serde_json::Value::from(n)
}

/// `Value::from` a `&str`.
#[verifier::external_body]
pub(crate) fn string(text: &str) -> (r: serde_json::Value)
    ensures
        json_tree(r) == JsonTree::Text(text@),
{
    serde_json::Value::from(text)
}

/// `Value::from` a `Vec` of values: the array of them.
#[verifier::external_body]
pub(crate) fn array(items: Vec<serde_json::Value>) -> (r: serde_json::Value)
    ensures
        json_tree(r) == JsonTree::Items(json_trees(items@)),
{
    serde_json::Value::from(items)
}

/// `Value::from` the map that `serde_json::Map::new` makes: the object without members.
#[verifier::external_body]
pub(crate) fn object() -> (r: serde_json::Value)
    ensures
        json_tree(r) == JsonTree::object(),
{
    serde_json::Value::from(serde_json::Map::new())
}

/// `serde_json::Map::insert` on the members of an object: the member of that name is the given
/// value from then on, and the other members stay.
#[verifier::external_body]
pub(crate) fn with(value: serde_json::Value, key: &str, member: serde_json::Value) -> (r:
    serde_json::Value)
    requires
        json_tree(value) is Fields,
    ensures
        json_tree(r) == json_tree(value).with(key@, json_tree(member)),
{
    let mut value = value;
    if let serde_json::Value::Object(fields) = &mut value {
        fields.insert(key.to_owned(), member);
    }
    value
}

/// A JSON value that is made of strings, and of objects that are nested at most `depth` deep.
pub open spec fn textual(tree: JsonTree, depth: nat) -> bool
    decreases depth,
{
    match tree {
        JsonTree::Text(_) => true,
        JsonTree::Fields(fields) => depth > 0 && forall|key: Seq<char>| #[trigger]
            fields.dom().contains(key) ==> textual(fields[key], (depth - 1) as nat),
        _ => false,
    }
}

/// The text that `Value::to_string` writes for a JSON value.
pub uninterp spec fn json_text(tree: JsonTree) -> Seq<char>;

/// `Value::to_string`: the JSON text of the value, without white space between its parts. The text
/// depends on what the value holds alone, and `serde_json::from_str` reads the value back from it.
/// The latter is claimed of strings and of objects of them only: a number with a fraction may be
/// read back slightly off, and a value that is nested too deeply is not read back.
#[verifier::external_body]
pub(crate) fn compact(value: &serde_json::Value) -> (r: String)
    ensures
        r@ == json_text(json_tree(*value)),
        textual(json_tree(*value), 8) ==> json_document(r@) == Some(json_tree(*value)),
{
    value.to_string()
}

/// The text that `serde_json::to_string_pretty` writes for a JSON value, or that it fails.
pub uninterp spec fn json_pretty_text(tree: JsonTree) -> Option<Seq<char>>;

/// `serde_json::to_string_pretty` of a value: the JSON text of the value with line breaks and
/// indentation, or nothing where it fails. The result depends on what the value holds alone.
#[verifier::external_body]
pub(crate) fn pretty(value: &serde_json::Value) -> (r: Option<String>)
    ensures
        crate::text::optional(r) == json_pretty_text(json_tree(*value)),
{
    serde_json::to_string_pretty(value).ok()
}

} // verus!
