use vstd::prelude::*;

verus! {

#[verifier::external_type_specification]
#[verifier::external_body]
#[verifier::reject_recursive_types(K)]
#[verifier::reject_recursive_types(V)]
pub struct ExTomlMap<K, V>(toml::map::Map<K, V>);

#[verifier::external_type_specification]
#[verifier::external_body]
pub struct ExTomlValue(toml::Value);

/// The specification-level picture of a TOML value: what the accessors of
/// `toml::Value` can reveal about one.
pub enum TomlVal {
    VStr(Seq<char>),
    VInt(int),
    VTable(Map<Seq<char>, TomlVal>),
    VOther,
}

/// What a parsed TOML table holds, keyed by its keys' characters.
pub uninterp spec fn table_entries(t: toml::Table) -> Map<Seq<char>, TomlVal>;

/// What a TOML value holds.
pub uninterp spec fn value_model(v: toml::Value) -> TomlVal;

/// What parsing a text as a TOML document yields: a table when the text is
/// valid TOML, nothing otherwise. The result depends on the text alone.
pub uninterp spec fn toml_doc(s: Seq<char>) -> Option<Map<Seq<char>, TomlVal>>;

/// Relies on `<toml::Table as core::str::FromStr>::from_str`: parses a text
/// as a TOML document, returning a table on success and an error otherwise.
#[verifier::external_body]
pub(crate) fn parse_toml_text(s: &str) -> (r: Option<toml::Table>)
    ensures
        match r {
            Some(t) => toml_doc(s@) == Some(table_entries(t)),
            None => toml_doc(s@) is None,
        },
{
    match s.parse::<toml::Table>() {
        Ok(t) => Some(t),
        Err(_) => None,
    }
}

/// Relies on `toml::map::Map::is_empty`: true exactly when the table holds
/// no entry.
#[verifier::external_body]
pub(crate) fn table_is_empty(t: &toml::Table) -> (r: bool)
    ensures
        r <==> table_entries(*t).dom() =~= Set::<Seq<char>>::empty(),
{
    t.is_empty()
}

/// Relies on `toml::map::Map::get`: returns the value stored under the key,
/// or nothing when the key is absent.
#[verifier::external_body]
pub(crate) fn table_get<'a>(t: &'a toml::Table, key: &str) -> (r: Option<&'a toml::Value>)
    ensures
        match r {
            Some(v) => table_entries(*t).dom().contains(key@) && value_model(*v) == table_entries(
                *t,
            )[key@],
            None => !table_entries(*t).dom().contains(key@),
        },
{
    t.get(key)
}

/// Relies on `toml::Value::as_str`: returns the characters exactly when the
/// value is a TOML string.
#[verifier::external_body]
pub(crate) fn value_as_str<'a>(v: &'a toml::Value) -> (r: Option<&'a str>)
    ensures
        match r {
            Some(s) => value_model(*v) == TomlVal::VStr(s@),
            None => !(value_model(*v) is VStr),
        },
{
    v.as_str()
}

/// Relies on `toml::Value::as_integer`: returns the number exactly when the
/// value is a TOML integer.
#[verifier::external_body]
pub(crate) fn value_as_integer(v: &toml::Value) -> (r: Option<i64>)
    ensures
        match r {
            Some(n) => value_model(*v) == TomlVal::VInt(n as int),
            None => !(value_model(*v) is VInt),
        },
{
    v.as_integer()
}

/// Relies on `toml::Value::as_table`: returns the inner table exactly when
/// the value is a TOML table.
#[verifier::external_body]
pub(crate) fn value_as_table<'a>(v: &'a toml::Value) -> (r: Option<&'a toml::Table>)
    ensures
        match r {
            Some(t) => value_model(*v) == TomlVal::VTable(table_entries(*t)),
            None => !(value_model(*v) is VTable),
        },
{
    v.as_table()
}

} // verus!
