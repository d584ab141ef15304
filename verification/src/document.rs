//! The TOML document behind the base layer, as the `config` crate parses it.
//!
//! The document is parsed on its own, `config::File::from_str` collected
//! directly: its top-level table is read key by key, and no key is taken for
//! a path into another.

use config::{ConfigError, File, FileFormat, Source, Value, ValueKind};
use vstd::prelude::*;

verus! {

/// A value of a parsed document, as `config` holds it.
#[verifier::external_type_specification]
#[verifier::external_body]
pub struct ExValue(config::Value);

/// `config`'s error. Nothing is read from it.
#[verifier::external_type_specification]
#[verifier::external_body]
pub struct ExConfigError(config::ConfigError);

/// What a parsed table holds: each of its keys, with the text of its value
/// where the value is a string (`ValueKind::String`, which is also how
/// `config` keeps a TOML date), and with `None` where it is anything else.
pub uninterp spec fn table_entries(table: config::Map<String, Value>) -> Map<
    Seq<char>,
    Option<Seq<char>>,
>;

/// The entries of the top-level table that `text` parses to as TOML, or
/// `None` where it does not parse.
pub uninterp spec fn parsed_entries(text: Seq<char>) -> Option<Map<Seq<char>, Option<Seq<char>>>>;

/// `config::File::from_str(text, FileFormat::Toml)` followed by
/// `config::Source::collect`: the top-level table of the document, or the
/// parser's error. The call reads nothing but `text`, so the table's
/// entries are a function of it.
#[verifier::external_body]
pub(crate) fn parse_table(text: &str) -> (res: Result<config::Map<String, Value>, ConfigError>)
    ensures
        match res {
            Ok(table) => parsed_entries(text@) == Some(table_entries(table)),
            Err(_) => parsed_entries(text@) is None,
        },
{
    File::from_str(text, FileFormat::Toml).collect()
}

/// The table's `get`, with the value found handed out by its kind: the text
/// of a string, `None` for a value of any other kind. No value is turned
/// into text that was none in the document.
#[verifier::external_body]
pub(crate) fn table_entry(table: &config::Map<String, Value>, key: &str) -> (res: Option<
    Option<String>,
>)
    ensures
        match res {
            Some(Some(text)) => table_entries(*table).contains_key(key@) && table_entries(
                *table,
            )[key@] == Some(text@),
            Some(None) => table_entries(*table).contains_key(key@) && table_entries(
                *table,
            )[key@] is None,
            None => !table_entries(*table).contains_key(key@),
        },
{
    table.get(key).map(|value| match &value.kind {
        ValueKind::String(text) => Some(text.clone()),
        ValueKind::Nil | ValueKind::Boolean(_) | ValueKind::Float(_) => None,
        ValueKind::I64(_) | ValueKind::I128(_) => None,
        ValueKind::U64(_) | ValueKind::U128(_) => None,
        ValueKind::Table(_) | ValueKind::Array(_) => None,
    })
}

} // verus!
