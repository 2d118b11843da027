//! What the library reads from TOML manifests (`Cargo.toml`,
//! `Dioxus.toml`), through the `toml` crate.

use crate::text::views;
use vstd::prelude::*;

verus! {

/// A TOML value, as the `toml` crate parses it.
#[verifier::external_type_specification]
#[verifier::external_body]
pub struct ExTomlValue(toml::Value);

/// A TOML value as the library reads it: strings, integers, booleans,
/// arrays and tables (entries in the table's order); floats and dates,
/// which it never reads, are `Other`.
#[derive(Debug)]
pub enum TomlData {
    Str(String),
    Int(i64),
    Bool(bool),
    Arr(Vec<TomlData>),
    Tab(Vec<(String, TomlData)>),
    Other,
}

/// What the `toml` crate makes of a text: the document, or the text of
/// its error. It depends on the text alone.
pub uninterp spec fn toml_document(content: Seq<char>) -> Result<TomlData, Seq<char>>;

/// Whether the text parses as a TOML document.
pub open spec fn toml_parses(content: Seq<char>) -> bool {
    toml_document(content) is Ok
}

/// Parses a TOML document with `<toml::Value as FromStr>::from_str` and
/// copies it into plain values; on failure, the error's text
/// (`Display`). Claimed: the result is `toml_document` of the text.
#[verifier::external_body]
pub(crate) fn parse_toml_text(content: &str) -> (r: Result<TomlData, String>)
    ensures
        match r {
            Ok(v) => toml_document(content@) == Ok::<TomlData, Seq<char>>(v),
            Err(e) => toml_document(content@) == Err::<TomlData, Seq<char>>(e@),
        },
{
    match content.parse::<toml::Value>() {
        Ok(v) => Ok(toml_data(&v)),
        Err(e) => Err(e.to_string()),
    }
}

/// The copy of a `toml::Value` into plain values, made for
/// `parse_toml_text`: each variant one for one, arrays and tables (in the
/// table's order) copied in turn, floats and dates as `Other`.
#[verifier::external_body]
fn toml_data(v: &toml::Value) -> TomlData {
    match v {
        toml::Value::String(s) => TomlData::Str(s.clone()),
        toml::Value::Integer(i) => TomlData::Int(*i),
        toml::Value::Boolean(b) => TomlData::Bool(*b),
        toml::Value::Array(a) => TomlData::Arr(a.iter().map(toml_data).collect()),
        toml::Value::Table(t) => TomlData::Tab(t.iter().map(|(k, x)| (k.clone(), toml_data(x))).collect()),
        _ => TomlData::Other,
    }
}

/// The value of the first entry with the key, from index `i` on.
pub open spec fn entry_value(entries: Seq<(String, TomlData)>, key: Seq<char>, i: int) -> Option<
    TomlData,
>
    decreases entries.len() - i,
{
    if i < 0 || i >= entries.len() {
        None
    } else if entries[i].0@ == key {
        Some(entries[i].1)
    } else {
        entry_value(entries, key, i + 1)
    }
}

/// `toml::Value::get` with a key: a table's entry.
pub open spec fn toml_at(v: TomlData, key: Seq<char>) -> Option<TomlData> {
    match v {
        TomlData::Tab(e) => entry_value(e@, key, 0),
        _ => None,
    }
}

/// `toml::Value::as_str`.
pub open spec fn toml_text(v: TomlData) -> Option<Seq<char>> {
    match v {
        TomlData::Str(s) => Some(s@),
        _ => None,
    }
}

/// An entry's text, where the value is a table whose entry is a string.
pub open spec fn toml_text_at(v: TomlData, key: Seq<char>) -> Option<Seq<char>> {
    match toml_at(v, key) {
        Some(x) => toml_text(x),
        None => None,
    }
}

/// The strings among the first `k` values, in order.
pub open spec fn strings_among(items: Seq<TomlData>, k: int) -> Seq<Seq<char>>
    decreases k,
{
    if k <= 0 || k > items.len() {
        seq![]
    } else {
        strings_among(items, k - 1) + match toml_text(items[k - 1]) {
            Some(t) => seq![t],
            None => seq![],
        }
    }
}

/// The entry of a table with the key.
pub fn toml_get<'a>(v: &'a TomlData, key: &str) -> (r: Option<&'a TomlData>)
    ensures
        match toml_at(*v, key@) {
            Some(x) => r matches Some(y) && *y == x,
            None => r is None,
        },
{
    match v {
        TomlData::Tab(entries) => {
            let mut i: usize = 0;
            while i < entries.len()
                invariant
                    i <= entries@.len(),
                    toml_at(*v, key@) == entry_value(entries@, key@, 0),
                    entry_value(entries@, key@, 0) == entry_value(entries@, key@, i as int),
                decreases entries.len() - i,
            {
                if crate::text::str_eq(entries[i].0.as_str(), key) {
                    return Some(&entries[i].1);
                }
                i += 1;
            }
            None
        },
        _ => None,
    }
}

/// The text of a string value.
pub fn toml_as_str(v: &TomlData) -> (r: Option<String>)
    ensures
        match toml_text(*v) {
            Some(t) => r matches Some(s) && s@ == t,
            None => r is None,
        },
{
    match v {
        TomlData::Str(s) => Some(s.clone()),
        _ => None,
    }
}

/// The values of an array.
pub fn toml_as_array(v: &TomlData) -> (r: Option<&Vec<TomlData>>)
    ensures
        match *v {
            TomlData::Arr(a) => r matches Some(x) && *x == a,
            _ => r is None,
        },
{
    match v {
        TomlData::Arr(a) => Some(a),
        _ => None,
    }
}

/// The value of a boolean.
pub fn toml_as_bool(v: &TomlData) -> (r: Option<bool>)
    ensures
        r == (match *v {
            TomlData::Bool(b) => Some(b),
            _ => None,
        }),
{
    match v {
        TomlData::Bool(b) => Some(*b),
        _ => None,
    }
}

/// Whether the value is a table.
pub fn toml_is_table(v: &TomlData) -> (r: bool)
    ensures
        r == (*v is Tab),
{
    match v {
        TomlData::Tab(_) => true,
        _ => false,
    }
}

/// The entries of a table, in order.
pub fn toml_table_entries(v: &TomlData) -> (r: Option<&Vec<(String, TomlData)>>)
    ensures
        match *v {
            TomlData::Tab(e) => r matches Some(x) && *x == e,
            _ => r is None,
        },
{
    match v {
        TomlData::Tab(e) => Some(e),
        _ => None,
    }
}

/// The strings among the values, in order.
pub fn toml_strings(items: &Vec<TomlData>) -> (r: Vec<String>)
    ensures
        views(r@) == strings_among(items@, items@.len() as int),
{
    let mut names: Vec<String> = Vec::new();
    let mut i: usize = 0;
    while i < items.len()
        invariant
            i <= items@.len(),
            views(names@) == strings_among(items@, i as int),
        decreases items.len() - i,
    {
        if let Some(s) = toml_as_str(&items[i]) {
            let ghost before = names@;
            names.push(s);
            proof {
                crate::text::lemma_views_push(before, names@.last());
            }
        }
        i += 1;
    }
    names
}

/// `application.default_platform` of a `Dioxus.toml` text, where it is a
/// string.
pub open spec fn dioxus_platform_of(content: Seq<char>) -> Option<Seq<char>> {
    match toml_document(content) {
        Ok(doc) => match toml_at(doc, "application"@) {
            Some(app) => toml_text_at(app, "default_platform"@),
            None => None,
        },
        Err(_) => None,
    }
}

/// The string entries of `features.default` of a `Cargo.toml` text, where
/// that is an array.
pub open spec fn default_features_of(content: Seq<char>) -> Option<Seq<Seq<char>>> {
    match toml_document(content) {
        Ok(doc) => match toml_at(doc, "features"@) {
            Some(f) => match toml_at(f, "default"@) {
                Some(TomlData::Arr(items)) => Some(strings_among(items@, items@.len() as int)),
                _ => None,
            },
            None => None,
        },
        Err(_) => None,
    }
}

/// What the framework detector reads from the manifests of a project: the
/// `default_platform` string of `Dioxus.toml`'s `application` table, and
/// the string entries of `Cargo.toml`'s `features.default` array.
pub struct ManifestFacts {
    pub dioxus_default_platform: Option<String>,
    pub default_features: Option<Vec<String>>,
}

impl ManifestFacts {
    /// Facts when no manifest could be read.
    pub fn none() -> (r: Self)
        ensures
            r.dioxus_default_platform is None,
            r.default_features is None,
    {
        ManifestFacts { dioxus_default_platform: None, default_features: None }
    }

    /// The facts from the texts of `Dioxus.toml` and `Cargo.toml`, where
    /// they could be read. A text that is no TOML document gives nothing.
    pub fn read(dioxus_toml: Option<&str>, cargo_toml: Option<&str>) -> (r: Self)
        ensures
            crate::context::opt_view(r.dioxus_default_platform) == match dioxus_toml {
                Some(t) => dioxus_platform_of(t@),
                None => None,
            },
            match r.default_features {
                Some(v) => cargo_toml matches Some(t) && default_features_of(t@) == Some(views(v@)),
                None => cargo_toml is None || default_features_of(cargo_toml->0@) is None,
            },
    {
        let platform = match dioxus_toml {
            Some(t) => dioxus_platform_string(t),
            None => None,
        };
        let features = match cargo_toml {
            Some(t) => default_feature_names(t),
            None => None,
        };
        ManifestFacts { dioxus_default_platform: platform, default_features: features }
    }
}

/// The `application.default_platform` string of a `Dioxus.toml` text.
fn dioxus_platform_string(content: &str) -> (r: Option<String>)
    ensures
        crate::context::opt_view(r) == dioxus_platform_of(content@),
{
    let config = match parse_toml_text(content) {
        Ok(v) => v,
        Err(_) => {
            return None;
        },
    };
    match toml_get(&config, "application") {
        Some(app) => match toml_get(app, "default_platform") {
            Some(p) => toml_as_str(p),
            None => None,
        },
        None => None,
    }
}

/// The string entries of `features.default` in a `Cargo.toml` text.
fn default_feature_names(content: &str) -> (r: Option<Vec<String>>)
    ensures
        match r {
            Some(v) => default_features_of(content@) == Some(views(v@)),
            None => default_features_of(content@) is None,
        },
{
    let config = match parse_toml_text(content) {
        Ok(v) => v,
        Err(_) => {
            return None;
        },
    };
    let features = match toml_get(&config, "features") {
        Some(f) => f,
        None => {
            return None;
        },
    };
    let defaults = match toml_get(features, "default") {
        Some(d) => d,
        None => {
            return None;
        },
    };
    match toml_as_array(defaults) {
        Some(items) => Some(toml_strings(items)),
        None => None,
    }
}

} // verus!
