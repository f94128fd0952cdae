//! The trusted boundary to the external manifest text parser.

use vstd::prelude::*;

verus! {

/// What the external TOML parser makes of a document: the parse is a pure
/// function of the text alone, yielding either the document's value tree or
/// the parser's diagnostic message.
pub uninterp spec fn toml_parse_of(s: Seq<char>) -> Result<crate::value::ValueTree, Seq<char>>;

#[verifier::external_type_specification]
#[verifier::external_body]
pub struct ExTomlValue(toml::Value);

/// Parse manifest text into a value tree, or report the parser's message.
///
/// Relies on `str::parse::<toml::Table>` (the `toml` crate's document
/// parser): a TOML document always parses to a table with unique keys, the
/// same text always parses to the same tree, and a rejected text always
/// yields the same diagnostic.
#[verifier::external_body]
pub fn parse_manifest(text: &str) -> (r: Result<crate::value::ValueTree, String>)
    ensures
        r is Ok <==> toml_parse_of(text@) is Ok,
        r is Ok ==> r->Ok_0 == toml_parse_of(text@)->Ok_0,
        r is Ok ==> r->Ok_0 is Table,
        r is Err ==> r->Err_0@ == toml_parse_of(text@)->Err_0,
{
    match text.parse::<toml::Table>() {
        Ok(t) => Ok(value_of_toml(toml::Value::Table(t))),
        Err(e) => Err(e.to_string()),
    }
}

/// Carry a parsed `toml::Value` over into the library's value tree; only
/// [`parse_manifest`]'s body uses this.
///
/// Relies on `toml::Value`'s variants: each arm moves one variant's payload,
/// rendering floats and date-times as text.
#[verifier::external_body]
fn value_of_toml(v: toml::Value) -> crate::value::ValueTree {
    match v {
        toml::Value::String(s) => crate::value::ValueTree::Str(s),
        toml::Value::Integer(i) => crate::value::ValueTree::Int(i),
        toml::Value::Float(x) => crate::value::ValueTree::Float(x.to_string()),
        toml::Value::Boolean(b) => crate::value::ValueTree::Bool(b),
        toml::Value::Datetime(d) => crate::value::ValueTree::Datetime(d.to_string()),
        toml::Value::Array(a) => crate::value::ValueTree::Array(
            a.into_iter().map(value_of_toml).collect(),
        ),
        toml::Value::Table(t) => crate::value::ValueTree::Table(
            t.into_iter().map(|(k, x)| (k, value_of_toml(x))).collect(),
        ),
    }
}

} // verus!
