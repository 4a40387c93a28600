//! Reading TOML documents. The `toml` crate parses the text; what the
//! library reads of a table comes out as an [`Entry`].

use toml::{Table, Value};
use vstd::prelude::*;

verus! {

/// Declares `toml::map::Map`, of which `toml::Table` is an instance, as an
/// opaque type.
#[verifier::external_type_specification]
#[verifier::external_body]
#[verifier::reject_recursive_types(K)]
#[verifier::reject_recursive_types(V)]
pub struct ExTable<K, V>(toml::map::Map<K, V>);

/// Declares `toml::Value` as an opaque type.
#[verifier::external_type_specification]
#[verifier::external_body]
pub struct ExValue(Value);

/// Declares `toml::de::Error` as an opaque type.
#[verifier::external_type_specification]
#[verifier::external_body]
pub struct ExTomlError(toml::de::Error);

/// What a table holds under a key, read as a `T`.
#[derive(Debug, Clone, PartialEq, Eq)]
pub enum Entry<T> {
    /// The table has no such key.
    Absent,
    /// The value under the key.
    Found(T),
    /// The key holds a value of another type.
    Other,
}

/// A TOML value as plain values, as far as the library reads it: a text, a
/// list, a table, or anything else.
pub enum ValueModel {
    Text(Seq<char>),
    List(Seq<ValueModel>),
    Table(Map<Seq<char>, ValueModel>),
    Other,
}

/// The table that a text holds when it is read as TOML, if it is TOML.
pub uninterp spec fn parsed_toml(content: Seq<char>) -> Option<Map<Seq<char>, ValueModel>>;

/// What a `toml::Table` holds: the value under each of its keys.
pub uninterp spec fn table_model(table: Table) -> Map<Seq<char>, ValueModel>;

/// What a `toml::Value` holds.
pub uninterp spec fn value_model(value: Value) -> ValueModel;

/// The values of a list as plain values.
pub open spec fn value_models(items: Seq<Value>) -> Seq<ValueModel> {
    Seq::new(items.len(), |i: int| value_model(items[i]))
}

/// An entry of strings as plain text.
pub open spec fn entry_text(entry: Entry<String>) -> Entry<Seq<char>> {
    match entry {
        Entry::Found(text) => Entry::Found(text@),
        Entry::Absent => Entry::Absent,
        Entry::Other => Entry::Other,
    }
}

/// Optional strings as plain text.
pub open spec fn option_texts(items: Seq<Option<String>>) -> Seq<Option<Seq<char>>> {
    Seq::new(items.len(), |i: int| crate::ir::opt_text(items[i]))
}

/// An entry of lists as plain text.
pub open spec fn entry_list(entry: Entry<Vec<Option<String>>>) -> Entry<Seq<Option<Seq<char>>>> {
    match entry {
        Entry::Found(items) => Entry::Found(option_texts(items@)),
        Entry::Absent => Entry::Absent,
        Entry::Other => Entry::Other,
    }
}

/// An optional table as plain values.
pub open spec fn option_table(item: Option<Table>) -> Option<Map<Seq<char>, ValueModel>> {
    match item {
        Some(table) => Some(table_model(table)),
        None => None,
    }
}

/// Optional tables as plain values.
pub open spec fn option_tables(items: Seq<Option<Table>>) -> Seq<
    Option<Map<Seq<char>, ValueModel>>,
> {
    Seq::new(items.len(), |i: int| option_table(items[i]))
}

/// An entry of a table as plain values.
pub open spec fn entry_table(entry: Entry<Table>) -> Entry<Map<Seq<char>, ValueModel>> {
    match entry {
        Entry::Found(table) => Entry::Found(table_model(table)),
        Entry::Absent => Entry::Absent,
        Entry::Other => Entry::Other,
    }
}

/// An entry of tables as plain values.
pub open spec fn entry_tables(entry: Entry<Vec<Option<Table>>>) -> Entry<
    Seq<Option<Map<Seq<char>, ValueModel>>>,
> {
    match entry {
        Entry::Found(items) => Entry::Found(option_tables(items@)),
        Entry::Absent => Entry::Absent,
        Entry::Other => Entry::Other,
    }
}

/// The text of a value, if it is a text.
pub open spec fn text_of(value: ValueModel) -> Option<Seq<char>> {
    match value {
        ValueModel::Text(text) => Some(text),
        _ => None,
    }
}

/// The table of a value, if it is a table.
pub open spec fn table_of(value: ValueModel) -> Option<Map<Seq<char>, ValueModel>> {
    match value {
        ValueModel::Table(table) => Some(table),
        _ => None,
    }
}

/// The text that a table holds under a key.
pub open spec fn text_at(table: Map<Seq<char>, ValueModel>, key: Seq<char>) -> Entry<Seq<char>> {
    if !table.contains_key(key) {
        Entry::Absent
    } else {
        match table[key] {
            ValueModel::Text(text) => Entry::Found(text),
            _ => Entry::Other,
        }
    }
}

/// The list that a table holds under a key: of each item its text, or
/// nothing where the item is no text.
pub open spec fn list_at(table: Map<Seq<char>, ValueModel>, key: Seq<char>) -> Entry<
    Seq<Option<Seq<char>>>,
> {
    if !table.contains_key(key) {
        Entry::Absent
    } else {
        match table[key] {
            ValueModel::List(items) => Entry::Found(
                Seq::new(items.len(), |i: int| text_of(items[i])),
            ),
            _ => Entry::Other,
        }
    }
}

/// The table that a table holds under a key.
pub open spec fn table_at(table: Map<Seq<char>, ValueModel>, key: Seq<char>) -> Entry<
    Map<Seq<char>, ValueModel>,
> {
    if !table.contains_key(key) {
        Entry::Absent
    } else {
        match table[key] {
            ValueModel::Table(inner) => Entry::Found(inner),
            _ => Entry::Other,
        }
    }
}

/// The list that a table holds under a key: of each item its table, or
/// nothing where the item is no table.
pub open spec fn tables_at(table: Map<Seq<char>, ValueModel>, key: Seq<char>) -> Entry<
    Seq<Option<Map<Seq<char>, ValueModel>>>,
> {
    if !table.contains_key(key) {
        Entry::Absent
    } else {
        match table[key] {
            ValueModel::List(items) => Entry::Found(
                Seq::new(items.len(), |i: int| table_of(items[i])),
            ),
            _ => Entry::Other,
        }
    }
}

/// Wraps `str::parse` for `toml::Table`: the table that the text holds,
/// which is named [`parsed_toml`], or the error where the text is not TOML.
#[verifier::external_body]
pub(crate) fn parse_table(content: &str) -> (r: Result<Table, toml::de::Error>)
    ensures
        match r {
            Ok(table) => parsed_toml(content@) == Some(table_model(table)),
            Err(_) => parsed_toml(content@) is None,
        },
{
    content.parse::<Table>()
}

/// Wraps `toml::map::Map::get`: a copy of the value under the key, or
/// nothing where the table has no such key.
#[verifier::external_body]
pub(crate) fn table_get(table: &Table, key: &str) -> (r: Option<Value>)
    ensures
        match r {
            Some(value) => table_model(*table).contains_key(key@) && table_model(*table)[key@]
                == value_model(value),
            None => !table_model(*table).contains_key(key@),
        },
{
    table.get(key).cloned()
}

/// Wraps `Value::as_str`: the text of a string value; any other value gives
/// nothing.
#[verifier::external_body]
pub(crate) fn value_text(value: &Value) -> (r: Option<String>)
    ensures
        match r {
            Some(text) => value_model(*value) == ValueModel::Text(text@),
            None => !(value_model(*value) is Text),
        },
{
    value.as_str().map(|text| text.to_string())
}

/// Wraps `Value::as_array`: a copy of the items of an array value; any
/// other value gives nothing.
#[verifier::external_body]
pub(crate) fn value_items(value: &Value) -> (r: Option<Vec<Value>>)
    ensures
        match r {
            Some(items) => value_model(*value) == ValueModel::List(value_models(items@)),
            None => !(value_model(*value) is List),
        },
{
    value.as_array().cloned()
}

/// Wraps `Value::as_table`: a copy of a table value; any other value gives
/// nothing.
#[verifier::external_body]
pub(crate) fn value_table(value: &Value) -> (r: Option<Table>)
    ensures
        match r {
            Some(table) => value_model(*value) == ValueModel::Table(table_model(table)),
            None => !(value_model(*value) is Table),
        },
{
    value.as_table().cloned()
}

/// Reads the text under a key.
pub(crate) fn read_text(table: &Table, key: &str) -> (r: Entry<String>)
    ensures
        entry_text(r) == text_at(table_model(*table), key@),
{
    match table_get(table, key) {
        Some(value) => match value_text(&value) {
            Some(text) => Entry::Found(text),
            None => Entry::Other,
        },
        None => Entry::Absent,
    }
}

/// Reads the array under a key: of each item its text, or nothing where the
/// item is no string.
pub(crate) fn read_list(table: &Table, key: &str) -> (r: Entry<Vec<Option<String>>>)
    ensures
        entry_list(r) == list_at(table_model(*table), key@),
{
    match table_get(table, key) {
        Some(value) => match value_items(&value) {
            Some(items) => {
                let ghost models = value_models(items@);
                let mut texts: Vec<Option<String>> = Vec::new();
                let mut i: usize = 0;
                while i < items.len()
                    invariant
                        i <= items.len(),
                        models == value_models(items@),
                        texts@.len() == i,
                        forall|k: int|
                            0 <= k < i ==> (#[trigger] option_texts(texts@)[k]) == text_of(
                                models[k],
                            ),
                    decreases items.len() - i,
                {
                    let text = value_text(&items[i]);
                    let ghost before = option_texts(texts@);
                    let ghost added = crate::ir::opt_text(text);
                    assert(added == text_of(models[i as int]));
                    texts.push(text);
                    assert(option_texts(texts@) =~= before.push(added));
                    i = i + 1;
                }
                assert(option_texts(texts@) =~= Seq::new(
                    models.len(),
                    |k: int| text_of(models[k]),
                ));
                Entry::Found(texts)
            },
            None => Entry::Other,
        },
        None => Entry::Absent,
    }
}

/// Reads the table under a key.
pub(crate) fn read_table(table: &Table, key: &str) -> (r: Entry<Table>)
    ensures
        entry_table(r) == table_at(table_model(*table), key@),
{
    match table_get(table, key) {
        Some(value) => match value_table(&value) {
            Some(inner) => Entry::Found(inner),
            None => Entry::Other,
        },
        None => Entry::Absent,
    }
}

/// Reads the array under a key: of each item its table, or nothing where
/// the item is no table.
pub(crate) fn read_tables(table: &Table, key: &str) -> (r: Entry<Vec<Option<Table>>>)
    ensures
        entry_tables(r) == tables_at(table_model(*table), key@),
{
    match table_get(table, key) {
        Some(value) => match value_items(&value) {
            Some(items) => {
                let ghost models = value_models(items@);
                let mut tables: Vec<Option<Table>> = Vec::new();
                let mut i: usize = 0;
                while i < items.len()
                    invariant
                        i <= items.len(),
                        models == value_models(items@),
                        tables@.len() == i,
                        forall|k: int|
                            0 <= k < i ==> (#[trigger] option_tables(tables@)[k]) == table_of(
                                models[k],
                            ),
                    decreases items.len() - i,
                {
                    let inner = value_table(&items[i]);
                    let ghost before = option_tables(tables@);
                    let ghost added = option_table(inner);
                    assert(added == table_of(models[i as int]));
                    tables.push(inner);
                    assert(option_tables(tables@) =~= before.push(added));
                    i = i + 1;
                }
                assert(option_tables(tables@) =~= Seq::new(
                    models.len(),
                    |k: int| table_of(models[k]),
                ));
                Entry::Found(tables)
            },
            None => Entry::Other,
        },
        None => Entry::Absent,
    }
}

} // verus!
