//! Lookup of a cross-linker override in a cargo configuration document.
//!
//! A cargo configuration is a TOML document whose `[target.<triplet>]`
//! tables may carry a `linker` key. Every failure along the lookup —
//! document missing, document malformed, table missing, key missing, value
//! not a string — means the same thing: no override is available. None of
//! them is an error.

use vstd::prelude::*;

verus! {

/// The linker string at `[target.<triplet>] linker = "..."` in the TOML
/// document `doc`, when `doc` parses and holds one; `None` otherwise. The
/// result is a function of the document text and the triplet alone.
pub uninterp spec fn linker_in_config(doc: Seq<char>, triplet: Seq<char>) -> Option<Seq<char>>;

/// Relies on the `toml` crate: `str::parse::<toml::Table>` (its `FromStr`,
/// which parses a TOML document), `toml::map::Map::get` and `Value::get`
/// (table indexing by key), and `Value::as_str` (the payload of a string
/// value). The body is the documented lookup of the string at
/// `[target.<triplet>] linker`, whose result this library calls
/// `linker_in_config`.
#[verifier::external_body]
fn toml_linker_lookup(doc: &str, triplet: &str) -> (r: Option<String>)
    ensures
        r.deep_view() == linker_in_config(doc@, triplet@),
{
    let table: toml::Table = match doc.parse() {
        Ok(t) => t,
        Err(_) => return None,
    };
    table
        .get("target")
        .and_then(|targets| targets.get(triplet))
        .and_then(|target| target.get("linker"))
        .and_then(|linker| linker.as_str())
        .map(String::from)
}

/// The cross-linker override for a triplet, from the text of the cargo
/// configuration file when one could be read.
///
/// An absent document, like every failure inside the lookup, yields no
/// override rather than an error.
pub fn cargo_linker(config: Option<&str>, triplet: &str) -> (r: Option<String>)
    ensures
        match config {
            Some(doc) => r.deep_view() == linker_in_config(doc@, triplet@),
            None => r is None,
        },
{
    match config {
        Some(doc) => toml_linker_lookup(doc, triplet),
        None => None,
    }
}

} // verus!
