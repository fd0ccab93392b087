//! JSON documents, whose values are kept by the `serde_json` crate.

use vstd::prelude::*;


verus! {

/// `serde_json::Map`, the object of a JSON document.
#[verifier::external_type_specification]
#[verifier::external_body]
#[verifier::reject_recursive_types(K)]
#[verifier::reject_recursive_types(V)]
pub struct ExJsonMap<K, V>(serde_json::Map<K, V>);

/// `serde_json::Value`, a value of a JSON document.
#[verifier::external_type_specification]
#[verifier::external_body]
pub struct ExJsonValue(serde_json::Value);

/// What a value of a JSON document is.
pub enum JsonItem {
    Null,
    Boolean(bool),
    /// A number, by its text.
    Number(Seq<char>),
    Text(Seq<char>),
    List(Seq<JsonItem>),
    Object(Map<Seq<char>, JsonItem>),
}

/// The members of an object that has none.
pub open spec fn no_members() -> Map<Seq<char>, JsonItem> {
    Map::empty()
}

/// The members of a `serde_json::Map`.
pub uninterp spec fn members(m: serde_json::Map<String, serde_json::Value>) -> Map<
    Seq<char>,
    JsonItem,
>;

/// What a `serde_json::Value` is.
pub uninterp spec fn json_item(v: serde_json::Value) -> JsonItem;

/// What `serde_json::from_str` reads in a text as a `serde_json::Value`: a value, or a complaint.
pub uninterp spec fn json_parsed(s: Seq<char>) -> Result<JsonItem, Seq<char>>;

/// What `serde_json::Value::to_string` writes for a value, on one line.
pub uninterp spec fn json_line(item: JsonItem) -> Seq<char>;

/// What `serde_json::to_string_pretty` writes for a value, on several lines.
pub uninterp spec fn json_pretty(item: JsonItem) -> Seq<char>;

/// `serde_json::from_str::<serde_json::Value>`: the value, or the text of the error, is determined
/// by the text that is read.
#[verifier::external_body]
pub(crate) fn parse_json(s: &str) -> (r: Result<serde_json::Value, String>)
    ensures
        match r {
            Ok(v) => json_parsed(s@) == Ok::<JsonItem, Seq<char>>(json_item(v)),
            Err(e) => json_parsed(s@) == Err::<JsonItem, Seq<char>>(e@),
        },
{
    serde_json::from_str::<serde_json::Value>(s).map_err(|error| error.to_string())
}

/// `serde_json::Value::to_string`: the text is determined by the value, whose objects the crate
/// keeps in the order of their keys.
#[verifier::external_body]
pub(crate) fn json_to_line(v: &serde_json::Value) -> (r: String)
    ensures
        r@ == json_line(json_item(*v)),
{
    v.to_string()
}

/// `serde_json::to_string_pretty` on a `serde_json::Value`, which has no key that is not a text and
/// so does not fail: the text is determined by the value.
#[verifier::external_body]
pub(crate) fn json_to_pretty(v: &serde_json::Value) -> (r: String)
    ensures
        r@ == json_pretty(json_item(*v)),
{
    serde_json::to_string_pretty(v).unwrap()
}

/// `serde_json::Map::new`: an object without members.
#[verifier::external_body]
pub(crate) fn new_object() -> (r: serde_json::Map<String, serde_json::Value>)
    ensures
        members(r) == no_members(),
{
    serde_json::Map::new()
}

/// `serde_json::Map::insert`: the value stands under the key, in place of one that stood there.
#[verifier::external_body]
pub(crate) fn set_member(
    m: &mut serde_json::Map<String, serde_json::Value>,
    key: String,
    value: serde_json::Value,
)
    ensures
        members(*final(m)) == members(*old(m)).insert(key@, json_item(value)),
{
    m.insert(key, value);
}

/// `serde_json::Map::get`: a copy of the value under the key.
#[verifier::external_body]
pub(crate) fn get_member(m: &serde_json::Map<String, serde_json::Value>, key: &str) -> (r: Option<
    serde_json::Value,
>)
    ensures
        match r {
            Some(v) => members(*m).contains_key(key@) && members(*m)[key@] == json_item(v),
            None => !members(*m).contains_key(key@),
        },
{
    m.get(key).cloned()
}

/// `serde_json::Map::keys`: each key once.
#[verifier::external_body]
pub(crate) fn member_keys(m: &serde_json::Map<String, serde_json::Value>) -> (r: Vec<String>)
    ensures
        r.deep_view().no_duplicates(),
        forall|k: Seq<char>|
            #[trigger] r.deep_view().contains(k) == members(*m).contains_key(k),
{
    m.keys().cloned().collect()
}

/// `serde_json::Value::as_object`: a copy of the object, where the value is one.
#[verifier::external_body]
pub(crate) fn object_of(v: &serde_json::Value) -> (r: Option<
    serde_json::Map<String, serde_json::Value>,
>)
    ensures
        match r {
            Some(m) => json_item(*v) == JsonItem::Object(members(m)),
            None => !(json_item(*v) is Object),
        },
{
    v.as_object().cloned()
}

/// `serde_json::Value::as_array`: a copy of the list, where the value is one.
#[verifier::external_body]
pub(crate) fn list_of(v: &serde_json::Value) -> (r: Option<Vec<serde_json::Value>>)
    ensures
        match r {
            Some(items) => json_item(*v) == JsonItem::List(
                items@.map_values(|x: serde_json::Value| json_item(x)),
            ),
            None => !(json_item(*v) is List),
        },
{
    v.as_array().cloned()
}

/// `serde_json::Value::as_str`: a copy of the text, where the value is one.
#[verifier::external_body]
pub(crate) fn text_of(v: &serde_json::Value) -> (r: Option<String>)
    ensures
        match r {
            Some(s) => json_item(*v) == JsonItem::Text(s@),
            None => !(json_item(*v) is Text),
        },
{
    v.as_str().map(|s| s.to_owned())
}

/// `serde_json::Value::is_null`: whether the value is none.
#[verifier::external_body]
pub(crate) fn is_null(v: &serde_json::Value) -> (r: bool)
    ensures
        r == (json_item(*v) is Null),
{
    v.is_null()
}

/// `serde_json::Value::Object`: an object.
#[verifier::external_body]
pub(crate) fn json_object(m: serde_json::Map<String, serde_json::Value>) -> (r: serde_json::Value)
    ensures
        json_item(r) == JsonItem::Object(members(m)),
{
    serde_json::Value::Object(m)
}

/// `serde_json::Value::Array`: the values in their order.
#[verifier::external_body]
pub(crate) fn json_list(items: Vec<serde_json::Value>) -> (r: serde_json::Value)
    ensures
        json_item(r) == JsonItem::List(items@.map_values(|x: serde_json::Value| json_item(x))),
{
    serde_json::Value::Array(items)
}

/// `serde_json::Value::String`: a text.
#[verifier::external_body]
pub(crate) fn json_text(s: String) -> (r: serde_json::Value)
    ensures
        json_item(r) == JsonItem::Text(s@),
{
    serde_json::Value::String(s)
}

/// `serde_json::Value::Null`: no value.
#[verifier::external_body]
pub(crate) fn json_null() -> (r: serde_json::Value)
    ensures
        json_item(r) == JsonItem::Null,
{
    serde_json::Value::Null
}

/// A text, or no value.
pub open spec fn optional_item(text: Option<Seq<char>>) -> JsonItem {
    match text {
        Some(s) => JsonItem::Text(s),
        None => JsonItem::Null,
    }
}

/// A text, or no value.
pub(crate) fn json_optional(text: &Option<String>) -> (r: serde_json::Value)
    ensures
        json_item(r) == optional_item(text.deep_view()),
{
    match text {
        Some(s) => json_text(s.clone()),
        None => json_null(),
    }
}

/// An object with one member.
pub open spec fn single_member(key: Seq<char>, item: JsonItem) -> JsonItem {
    JsonItem::Object(no_members().insert(key, item))
}

/// An object with one member.
pub(crate) fn json_single(key: &str, value: serde_json::Value) -> (r: serde_json::Value)
    ensures
        json_item(r) == single_member(key@, json_item(value)),
{
    let mut m = new_object();
    set_member(&mut m, key.to_owned(), value);
    json_object(m)
}

/// A list without values.
pub(crate) fn json_empty_list() -> (r: serde_json::Value)
    ensures
        json_item(r) == JsonItem::List(Seq::empty()),
{
    let items: Vec<serde_json::Value> = Vec::new();
    assert(items@.map_values(|x: serde_json::Value| json_item(x)) =~= Seq::empty());
    json_list(items)
}

/// A list of one value.
pub(crate) fn json_singleton(value: serde_json::Value) -> (r: serde_json::Value)
    ensures
        json_item(r) == JsonItem::List(seq![json_item(value)]),
{
    let items: Vec<serde_json::Value> = vec![value];
    assert(items@.map_values(|x: serde_json::Value| json_item(x)) =~= seq![json_item(value)]);
    json_list(items)
}

} // verus!
