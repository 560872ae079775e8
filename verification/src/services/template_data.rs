//! Template data and template rendering, done by `serde_json` and
//! `handlebars`.
//!
//! Nothing here is proved: each function states what the outside crate is
//! trusted to return, and the spec functions without a body stand for its
//! results.

use crate::services::template_text::calls_partial;
use vstd::prelude::*;

verus! {

#[verifier::external_type_specification]
#[verifier::external_body]
pub struct ExJsonValue(serde_json::Value);

#[verifier::external_type_specification]
#[verifier::external_body]
pub struct ExRenderError(handlebars::RenderError);

/// The JSON string that holds `text`.
pub uninterp spec fn json_text(text: Seq<char>) -> serde_json::Value;

/// The JSON number `n`.
pub uninterp spec fn json_count(n: nat) -> serde_json::Value;

/// The JSON array of `items`, in order.
pub uninterp spec fn json_list(items: Seq<serde_json::Value>) -> serde_json::Value;

/// The JSON object made by inserting each of `names` with the value at the
/// same place in `values`, in order.
pub uninterp spec fn json_record(
    names: Seq<Seq<char>>,
    values: Seq<serde_json::Value>,
) -> serde_json::Value;

/// What `handlebars`, in strict mode and with nothing registered, renders
/// from `template` and `data`; `None` where it reports an error. It stands
/// for a result only on templates that call no partial and no decorator.
pub uninterp spec fn rendered(template: Seq<char>, data: serde_json::Value) -> Option<Seq<char>>;

/// The texts of a sequence of strings, in order.
pub open spec fn texts(strings: Seq<String>) -> Seq<Seq<char>> {
    strings.map_values(|s: String| s@)
}

/// Calls `serde_json::Value::from` on a string slice. Trusted: the value is
/// a function of the text alone.
#[verifier::external_body]
pub(crate) fn text_value(text: &str) -> (value: serde_json::Value)
    ensures
        value == json_text(text@),
{
    serde_json::Value::from(text)
}

/// Calls `serde_json::Value::from` on a `usize`. Trusted: the value is a
/// function of the number alone.
#[verifier::external_body]
pub(crate) fn count_value(n: usize) -> (value: serde_json::Value)
    ensures
        value == json_count(n as nat),
{
    serde_json::Value::from(n)
}

/// Calls `serde_json::Value::from` on a vector of values. Trusted: the value
/// is a function of the items and their order alone.
#[verifier::external_body]
pub(crate) fn list_value(items: Vec<serde_json::Value>) -> (value: serde_json::Value)
    ensures
        value == json_list(items@),
{
    serde_json::Value::from(items)
}

/// Collects pairs of names and values into a `serde_json::Value` through its
/// `FromIterator`. Trusted: the value is a function of the names, the values
/// and their order alone.
#[verifier::external_body]
pub(crate) fn record_value(names: Vec<String>, values: Vec<serde_json::Value>) -> (value:
    serde_json::Value)
    ensures
        value == json_record(texts(names@), values@),
{
    names.into_iter().zip(values).collect()
}

/// Calls `handlebars::Handlebars::render_template` on a registry that holds
/// nothing but what `Handlebars::new` puts there and is set to strict mode,
/// in which a value that the data does not hold is an error. A template
/// that calls a partial or a decorator is not admitted: one that includes
/// itself would be expanded without end. Trusted: on every other template
/// the call returns, and whether it succeeds, and the text it then returns,
/// are a function of the template and the data alone.
#[verifier::external_body]
pub(crate) fn render_with_handlebars(template: &str, data: &serde_json::Value) -> (outcome: Result<
    String,
    handlebars::RenderError,
>)
    requires
        !calls_partial(template@),
    ensures
        match outcome {
            Ok(text) => rendered(template@, *data) == Some(text@),
            Err(_) => rendered(template@, *data) is None,
        },
{
    let mut engine = handlebars::Handlebars::new();
    engine.set_strict_mode(true);
    engine.render_template(template, data)
}

/// Writes a `handlebars::RenderError` through its `Display`. Nothing is
/// claimed of the text.
#[verifier::external_body]
pub(crate) fn render_error_text(error: &handlebars::RenderError) -> (text: String) {
    format!("{}", error)
}

} // verus!
