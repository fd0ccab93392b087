//! TOML documents, whose tables are kept by the `toml` crate.

use vstd::prelude::*;

verus! {

/// `toml::map::Map`, the table of a TOML document.
#[verifier::external_type_specification]
#[verifier::external_body]
#[verifier::reject_recursive_types(K)]
#[verifier::reject_recursive_types(V)]
pub struct ExTomlMap<K, V>(toml::map::Map<K, V>);

/// `toml::Value`, a value of a TOML document.
#[verifier::external_type_specification]
#[verifier::external_body]
pub struct ExTomlValue(toml::Value);

/// What a value of a TOML document is.
pub enum TomlItem {
    Text(Seq<char>),
    Integer(int),
    Boolean(bool),
    List(Seq<TomlItem>),
    Table(Map<Seq<char>, TomlItem>),
    /// A value of another kind, by its text.
    Other(Seq<char>),
}

/// The entries of a table that has none.
pub open spec fn no_entries() -> Map<Seq<char>, TomlItem> {
    Map::empty()
}

/// The entries of a `toml::Table`.
pub uninterp spec fn table_entries(t: toml::map::Map<String, toml::Value>) -> Map<
    Seq<char>,
    TomlItem,
>;

/// What a `toml::Value` is.
pub uninterp spec fn value_item(v: toml::Value) -> TomlItem;

/// What `toml::from_str` reads in a text as a `toml::Table`: its entries, or a complaint.
pub uninterp spec fn toml_parsed(s: Seq<char>) -> Result<Map<Seq<char>, TomlItem>, Seq<char>>;

/// What `toml::to_string_pretty` writes for a `toml::Table` with some entries: a text, or a
/// complaint.
pub uninterp spec fn toml_rendered(entries: Map<Seq<char>, TomlItem>) -> Result<
    Seq<char>,
    Seq<char>,
>;

/// `toml::from_str::<toml::Table>`: the entries of the table, or the text of the error, are
/// determined by the text that is read.
#[verifier::external_body]
pub(crate) fn parse_table(s: &str) -> (r: Result<toml::map::Map<String, toml::Value>, String>)
    ensures
        match r {
            Ok(t) => toml_parsed(s@) == Ok::<Map<Seq<char>, TomlItem>, Seq<char>>(table_entries(t)),
            Err(e) => toml_parsed(s@) == Err::<Map<Seq<char>, TomlItem>, Seq<char>>(e@),
        },
{
    toml::from_str::<toml::Table>(s).map_err(|error| error.to_string())
}

/// `toml::to_string_pretty` on a `toml::Table`: the text, or the text of the error, is determined
/// by the entries of the table, which the crate keeps in the order of their keys. That reading the
/// text gives the entries back is not said: the crate reads no values that are nested too deeply,
/// and takes a table whose first key is `$__toml_private_datetime` for a date.
#[verifier::external_body]
pub(crate) fn render_table(t: &toml::map::Map<String, toml::Value>) -> (r: Result<String, String>)
    ensures
        match r {
            Ok(s) => toml_rendered(table_entries(*t)) == Ok::<Seq<char>, Seq<char>>(s@),
            Err(e) => toml_rendered(table_entries(*t)) == Err::<Seq<char>, Seq<char>>(e@),
        },
{
    toml::to_string_pretty(t).map_err(|error| error.to_string())
}

/// `toml::Table::new`: a table without entries.
#[verifier::external_body]
pub(crate) fn new_table() -> (r: toml::map::Map<String, toml::Value>)
    ensures
        table_entries(r) == no_entries(),
{
    toml::Table::new()
}

/// `toml::Table::insert`: the value stands under the key, in place of one that stood there.
#[verifier::external_body]
pub(crate) fn insert_value(
    t: &mut toml::map::Map<String, toml::Value>,
    key: String,
    value: toml::Value,
)
    ensures
        table_entries(*final(t)) == table_entries(*old(t)).insert(key@, value_item(value)),
{
    t.insert(key, value);
}

/// `toml::Table::remove`: nothing stands under the key.
#[verifier::external_body]
pub(crate) fn remove_value(t: &mut toml::map::Map<String, toml::Value>, key: &str)
    ensures
        table_entries(*final(t)) == table_entries(*old(t)).remove(key@),
{
    t.remove(key);
}

/// `toml::Table::get`, where the value is a table: a copy of that table.
#[verifier::external_body]
pub(crate) fn get_table(t: &toml::map::Map<String, toml::Value>, key: &str) -> (r: Option<
    toml::map::Map<String, toml::Value>,
>)
    ensures
        match r {
            Some(x) => table_entries(*t).contains_key(key@) && table_entries(*t)[key@]
                == TomlItem::Table(table_entries(x)),
            None => !(table_entries(*t).contains_key(key@) && table_entries(*t)[key@] is Table),
        },
{
    match t.get(key) {
        Some(toml::Value::Table(inner)) => Some(inner.clone()),
        _ => None,
    }
}

/// `toml::Value::String`: a text.
#[verifier::external_body]
pub(crate) fn text_value(s: String) -> (r: toml::Value)
    ensures
        value_item(r) == TomlItem::Text(s@),
{
    toml::Value::String(s)
}

/// `toml::Value::Integer`: a number.
#[verifier::external_body]
pub(crate) fn integer_value(n: i64) -> (r: toml::Value)
    ensures
        value_item(r) == TomlItem::Integer(n as int),
{
    toml::Value::Integer(n)
}

/// `toml::Value::Boolean`: a truth value.
#[verifier::external_body]
pub(crate) fn boolean_value(b: bool) -> (r: toml::Value)
    ensures
        value_item(r) == TomlItem::Boolean(b),
{
    toml::Value::Boolean(b)
}

/// `toml::Value::Array`: the values in their order.
#[verifier::external_body]
pub(crate) fn list_value(items: Vec<toml::Value>) -> (r: toml::Value)
    ensures
        value_item(r) == TomlItem::List(items@.map_values(|v: toml::Value| value_item(v))),
{
    toml::Value::Array(items)
}

/// `toml::Value::Table`: a table.
#[verifier::external_body]
pub(crate) fn table_value(t: toml::map::Map<String, toml::Value>) -> (r: toml::Value)
    ensures
        value_item(r) == TomlItem::Table(table_entries(t)),
{
    toml::Value::Table(t)
}

/// The table under a key; an empty one where there is none.
pub open spec fn subtable(entries: Map<Seq<char>, TomlItem>, key: Seq<char>) -> Map<
    Seq<char>,
    TomlItem,
> {
    if entries.contains_key(key) && entries[key] is Table {
        entries[key]->Table_0
    } else {
        Map::empty()
    }
}

/// The table under a key; an empty one where there is none.
pub(crate) fn subtable_of(t: &toml::map::Map<String, toml::Value>, key: &str) -> (r: toml::map::Map<
    String,
    toml::Value,
>)
    ensures
        table_entries(r) == subtable(table_entries(*t), key@),
{
    match get_table(t, key) {
        Some(x) => x,
        None => new_table(),
    }
}

/// The entries with a text under a key, or without the key where there is no text.
pub open spec fn with_optional(
    entries: Map<Seq<char>, TomlItem>,
    key: Seq<char>,
    text: Option<Seq<char>>,
) -> Map<Seq<char>, TomlItem> {
    match text {
        Some(s) => entries.insert(key, TomlItem::Text(s)),
        None => entries.remove(key),
    }
}

/// Puts a text under a key, or takes the key out where there is no text.
pub(crate) fn set_optional(
    t: &mut toml::map::Map<String, toml::Value>,
    key: &str,
    text: &Option<String>,
)
    ensures
        table_entries(*final(t)) == with_optional(table_entries(*old(t)), key@, text.deep_view()),
{
    match text {
        Some(s) => insert_value(t, key.to_owned(), text_value(s.clone())),
        None => remove_value(t, key),
    }
}

} // verus!
