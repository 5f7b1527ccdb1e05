//! JSON values as `serde_json` holds them.
//!
//! The library carries JSON values through and never looks inside one, so the types of
//! `serde_json` are opaque here. What the library needs computed on them is behind the
//! functions of this module.
use vstd::prelude::*;

verus! {

/// `serde_json::Value`, any JSON value.
#[verifier::external_type_specification]
#[verifier::external_body]
pub struct ExValue(serde_json::Value);

/// `serde_json::Map`, the members of a JSON object.
#[verifier::external_type_specification]
#[verifier::external_body]
#[verifier::reject_recursive_types(K)]
#[verifier::reject_recursive_types(V)]
pub struct ExMap<K, V>(serde_json::Map<K, V>);

/// `serde_json::Error`, why a text was not read or a value not written.
#[verifier::external_type_specification]
#[verifier::external_body]
pub struct ExError(serde_json::Error);

/// `clone` of `serde_json::Value` gives the same value again.
pub assume_specification[ <serde_json::Value as Clone>::clone ](
    value: &serde_json::Value,
) -> (copy: serde_json::Value)
    ensures
        copy == *value,
;

/// `clone` of the members of a JSON object gives the same members again.
pub assume_specification[ <serde_json::Map<String, serde_json::Value> as Clone>::clone ](
    members: &serde_json::Map<String, serde_json::Value>,
) -> (copy: serde_json::Map<String, serde_json::Value>)
    ensures
        copy == *members,
;

/// The members of a JSON object.
pub type JsonObject = serde_json::Map<String, serde_json::Value>;

/// What `serde_json::from_str` reads from `text` as an object that may be `null`: `None` where
/// `text` is neither, else the object, or `None` for `null`.
pub uninterp spec fn object_in(text: Seq<char>) -> Option<Option<JsonObject>>;

/// Calls `serde_json::from_str` for an optional object. The contract says that the outcome
/// depends on the text alone; which texts are read, and as what, is left to `serde_json`.
#[verifier::external_body]
pub(crate) fn object_from_str(text: &str) -> (parsed: Result<Option<JsonObject>, serde_json::Error>)
    ensures
        match parsed {
            Ok(object) => object_in(text@) == Some(object),
            Err(_) => object_in(text@) is None,
        },
{
    serde_json::from_str(text)
}

/// The JSON value `Value::Object` made of these members. The name stands for what two functions
/// of `serde_json` give: the constructor `Value::Object`, which takes the members over, and
/// `to_value`, which builds the object anew from them.
pub uninterp spec fn object_value(members: JsonObject) -> serde_json::Value;

/// Applies the constructor `serde_json::Value::Object`.
#[verifier::external_body]
pub(crate) fn object_into_value(members: JsonObject) -> (value: serde_json::Value)
    ensures
        value == object_value(members),
{
    serde_json::Value::Object(members)
}

/// Calls `serde_json::to_value` on the members of an object. The contract says that it gives
/// the object with these members: an object has strings for keys and JSON values below them,
/// and on these `to_value` has no error to return.
#[verifier::external_body]
pub(crate) fn object_to_value(members: &JsonObject) -> (value: serde_json::Value)
    ensures
        value == object_value(*members),
{
    serde_json::to_value(members).unwrap_or_default()
}

/// Whether `text` is what displaying `error` may give. Which texts these are is left open: an
/// error that came from the operating system is worded by it.
pub open spec fn displays(error: serde_json::Error, text: Seq<char>) -> bool {
    exists|shown: String|
        shown@ == text && #[trigger] vstd::string::to_string_from_display_ensures::<
            serde_json::Error,
        >(&error, shown)
}

/// The text of a JSON error, for a message that quotes it.
pub fn error_message(error: &serde_json::Error) -> (text: String)
    ensures
        displays(*error, text@),
{
    error.to_string()
}

} // verus!
