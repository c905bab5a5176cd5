//! The data context: an externally decoded, generic structured value, looked
//! up by key, plus the external expression evaluator.

use vstd::prelude::*;

verus! {

#[verifier::external_type_specification]
#[verifier::external_body]
pub struct ExJsonValue(serde_json::Value);

/// The value stored under a key of an object value, when there is one; the
/// result depends on the value and the key alone.
pub uninterp spec fn json_member_of(v: serde_json::Value, key: Seq<char>) -> Option<
    serde_json::Value,
>;

/// The text of a string value; the result depends on the value alone.
pub uninterp spec fn json_text_of(v: serde_json::Value) -> Option<Seq<char>>;

/// The truth of a boolean value.
pub uninterp spec fn json_bool_of(v: serde_json::Value) -> Option<bool>;

/// The value of a number that fits an unsigned machine word.
pub uninterp spec fn json_uint_of(v: serde_json::Value) -> Option<u64>;

/// The value of a number that fits a signed machine word.
pub uninterp spec fn json_int_of(v: serde_json::Value) -> Option<i64>;

/// The elements of an array value, in order.
pub uninterp spec fn json_items_of(v: serde_json::Value) -> Option<Seq<serde_json::Value>>;

/// The three-decimal text of a numeric value.
pub uninterp spec fn json_real_text_of(v: serde_json::Value) -> Option<Seq<char>>;

/// What the expression evaluator returns for a piece of template text and a
/// data context, or nothing when it fails; the result depends on the text
/// and the data value alone.
pub uninterp spec fn eval_of(t: Seq<char>, data: serde_json::Value) -> Option<Seq<char>>;

/// Relies on serde_json::Value::get: the value under the key, when the value
/// is an object holding it.
#[verifier::external_body]
pub(crate) fn json_get<'a>(v: &'a serde_json::Value, key: &str) -> (r: Option<&'a serde_json::Value>)
    ensures
        match r {
            Some(x) => json_member_of(*v, key@) == Some(*x),
            None => json_member_of(*v, key@) is None,
        },
{
    v.get(key)
}

/// Relies on serde_json::Value::as_str: the text of a string value.
#[verifier::external_body]
pub(crate) fn json_as_str(v: &serde_json::Value) -> (r: Option<String>)
    ensures
        r.deep_view() == json_text_of(*v),
{
    v.as_str().map(|s| s.to_owned())
}

/// Relies on serde_json::Value::as_bool: the truth of a boolean value.
#[verifier::external_body]
pub(crate) fn json_as_bool(v: &serde_json::Value) -> (r: Option<bool>)
    ensures
        r == json_bool_of(*v),
{
    v.as_bool()
}

/// Relies on serde_json::Value::as_u64: the value of an unsigned number.
#[verifier::external_body]
pub(crate) fn json_as_u64(v: &serde_json::Value) -> (r: Option<u64>)
    ensures
        r == json_uint_of(*v),
{
    v.as_u64()
}

/// Relies on serde_json::Value::as_i64: the value of a signed number.
#[verifier::external_body]
pub(crate) fn json_as_i64(v: &serde_json::Value) -> (r: Option<i64>)
    ensures
        r == json_int_of(*v),
{
    v.as_i64()
}

/// Relies on serde_json::Value::as_array: the elements of an array value.
#[verifier::external_body]
pub(crate) fn json_as_array<'a>(v: &'a serde_json::Value) -> (r: Option<Vec<&'a serde_json::Value>>)
    ensures
        match r {
            Some(items) => {
                &&& json_items_of(*v) is Some
                &&& json_items_of(*v)->Some_0.len() == items@.len()
                &&& forall|k: int|
                    0 <= k < items@.len() ==> *(#[trigger] items@[k]) == json_items_of(
                        *v,
                    )->Some_0[k]
            },
            None => json_items_of(*v) is None,
        },
{
    v.as_array().map(|a| a.iter().collect())
}

/// Relies on serde_json::Number::as_f64 and std's fixed-precision
/// formatting: the decimal text of a numeric value, kept to three places
/// after the point.  The three-decimal rule is a rendering rule of the
/// engine; it lives in this trusted body because the library's own code
/// holds no floating-point values.
#[verifier::external_body]
pub(crate) fn json_real_text(v: &serde_json::Value) -> (r: Option<String>)
    ensures
        r.deep_view() == json_real_text_of(*v),
{
    match v {
        serde_json::Value::Number(n) => n.as_f64().map(|x| format!("{:.3}", x)),
        _ => None,
    }
}

/// Relies on handlebars::Handlebars::render_template: the template text is
/// evaluated against the data context with the default helper set; an
/// unregistered helper name or malformed template text makes it fail, and a
/// key absent from the context renders as empty text.
#[verifier::external_body]
pub(crate) fn eval_template(template_text: &str, data: &serde_json::Value) -> (r: Option<String>)
    ensures
        r.deep_view() == eval_of(template_text@, *data),
{
    handlebars::Handlebars::new().render_template(template_text, data).ok()
}

} // verus!
