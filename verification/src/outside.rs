//! What this library takes on trust from the crates it is built on: the
//! header map of `http`, the status lines of `http`, the variables of a
//! GraphQL request as `serde_json_bytes` holds them, their JSON text as
//! `serde_json` writes it, the path queries of `access_json`, and the
//! current span of `tracing` with the OpenTelemetry context that
//! `tracing_opentelemetry` keeps for it.
//!
//! Nothing in this file is proved. Every contract here restates what the
//! named function of the outside crate does.

use crate::events::{BaggageItem, BaggageValue};
use crate::value::{found_attribute, AttributeValueView, Found};
use opentelemetry_api::baggage::BaggageExt;
use opentelemetry_api::trace::TraceContextExt;
use tracing_opentelemetry::OpenTelemetrySpanExt;
use vstd::prelude::*;

verus! {

/// The header values of `http`.
#[verifier::external_type_specification]
#[verifier::external_body]
pub struct ExHeaderValue(http::HeaderValue);

/// The header map of `http`.
#[verifier::external_type_specification]
#[verifier::external_body]
#[verifier::reject_recursive_types(T)]
pub struct ExHeaderMap<T>(http::HeaderMap<T>);

/// The text of `serde_json_bytes`.
#[verifier::external_type_specification]
#[verifier::external_body]
pub struct ExByteString(serde_json_bytes::ByteString);

/// The values of `serde_json_bytes`.
#[verifier::external_type_specification]
#[verifier::external_body]
pub struct ExBytesValue(serde_json_bytes::Value);

/// The objects of `serde_json_bytes`.
#[verifier::external_type_specification]
#[verifier::external_body]
#[verifier::reject_recursive_types(K)]
#[verifier::reject_recursive_types(V)]
pub struct ExBytesMap<K, V>(serde_json_bytes::Map<K, V>);

/// The values of `serde_json`.
#[verifier::external_type_specification]
#[verifier::external_body]
pub struct ExJsonValue(serde_json::Value);

/// The objects of `serde_json`.
#[verifier::external_type_specification]
#[verifier::external_body]
#[verifier::reject_recursive_types(K)]
#[verifier::reject_recursive_types(V)]
pub struct ExJsonMap<K, V>(serde_json::Map<K, V>);

/// The arrays of `opentelemetry_api`.
#[verifier::external_type_specification]
#[verifier::external_body]
pub struct ExOtelArray(opentelemetry_api::Array);

/// What a header map holds, as a lookup sees it: every spelling of a header
/// name under which `HeaderMap::get` finds a value, with the bytes of the
/// first value stored under that header.
pub uninterp spec fn header_values(headers: http::HeaderMap<http::HeaderValue>) -> Map<
    Seq<char>,
    Seq<u8>,
>;

/// `HeaderMap::get` with a `&str` key, followed by `HeaderValue::as_bytes`.
/// The map is searched for the header of that name (the search ignores the
/// case of ASCII letters, and a text that is no header name is found
/// nowhere); the bytes of the first value under it are copied out.
#[verifier::external_body]
pub(crate) fn header_get(headers: &http::HeaderMap<http::HeaderValue>, name: &str) -> (found:
    Option<Vec<u8>>)
    ensures
        match found {
            Some(bytes) => header_values(*headers).contains_key(name@) && header_values(
                *headers,
            )[name@] == bytes@,
            None => !header_values(*headers).contains_key(name@),
        },
{
    headers.get(name).map(|value| value.as_bytes().to_vec())
}

/// What `StatusCode::from_u16` and the `Display` of the `StatusCode` it gives
/// write for a status code: the number, a space and the reason phrase that
/// `http` knows for it; nothing where `http` refuses the number as a status
/// code.
pub uninterp spec fn status_line(code: u16) -> Option<Seq<char>>;

/// `StatusCode::from_u16` and `StatusCode::to_string`. `from_u16` takes the
/// numbers from 100 to 999 as status codes and refuses every other.
#[verifier::external_body]
pub(crate) fn status_text(code: u16) -> (line: Option<String>)
    ensures
        match line {
            Some(text) => status_line(code) == Some(text@),
            None => status_line(code) is None,
        },
        line is Some <==> 100 <= code < 1000,
{
    match http::StatusCode::from_u16(code) {
        Ok(status) => Some(status.to_string()),
        Err(_) => None,
    }
}

/// What the variables of a GraphQL request hold: under the name of each
/// variable whose value `serde_json::to_string` can write, the JSON text
/// that it writes for the value.
pub uninterp spec fn variable_texts(
    variables: serde_json_bytes::Map<serde_json_bytes::ByteString, serde_json_bytes::Value>,
) -> Map<Seq<char>, Seq<char>>;

/// `Map::get` of `serde_json_bytes`, followed by `serde_json::to_string` on
/// the value found.
#[verifier::external_body]
pub(crate) fn variable_text(
    variables: &serde_json_bytes::Map<serde_json_bytes::ByteString, serde_json_bytes::Value>,
    name: &str,
) -> (found: Option<String>)
    ensures
        match found {
            Some(text) => variable_texts(*variables).contains_key(name@) && variable_texts(
                *variables,
            )[name@] == text@,
            None => !variable_texts(*variables).contains_key(name@),
        },
{
    variables.get(name).and_then(|value| serde_json::to_string(value).ok())
}

/// Whether `JSONQuery::parse` of `access_json` accepts a text as a path
/// query. An index between square brackets is accepted up to `index_limit`,
/// the greatest `usize` of the machine.
pub uninterp spec fn valid_body_path(path: Seq<char>, index_limit: int) -> bool;

/// `JSONQuery::parse`: whether the text is a path query.
#[verifier::external_body]
pub(crate) fn body_path_is_valid(path: &str) -> (valid: bool)
    ensures
        valid == valid_body_path(path@, usize::MAX as int),
{
    access_json::JSONQuery::parse(path).is_ok()
}

/// What a JSON document holds for a path query: under every text that
/// `JSONQuery::parse` accepts and that `JSONQuery::execute` leads to a truth
/// value, a number or a text of the document, the attribute value which that
/// leaf converts to.
pub uninterp spec fn body_leaves(body: serde_json::Value) -> Map<Seq<char>, AttributeValueView>;

/// `JSONQuery::parse` and `JSONQuery::execute`. What the query leads to is
/// handed out as it is found, whatever its kind: a number with what
/// `Number::as_u64`, `as_i64` and `as_f64` give for it, an array and an
/// object with what they hold. Nothing is handed out for a text that is no
/// path query and for a path that leads nowhere.
///
/// An empty text is left out: it is a query without steps, on which
/// `execute` panics where the document is a single value.
#[verifier::external_body]
pub(crate) fn body_get(body: &serde_json::Value, path: &str) -> (found: Option<Found>)
    requires
        path@.len() > 0,
    ensures
        match found {
            Some(value) => match found_attribute(value) {
                Some(leaf) => body_leaves(*body).contains_key(path@) && body_leaves(*body)[path@]
                    == leaf,
                None => !body_leaves(*body).contains_key(path@),
            },
            None => !body_leaves(*body).contains_key(path@),
        },
{
    let query = access_json::JSONQuery::parse(path).ok()?;
    Some(match query.execute(body).ok().flatten()? {
        serde_json::Value::Null => Found::Null,
        serde_json::Value::Bool(b) => Found::Bool(b),
        serde_json::Value::Number(n) => Found::Number {
            unsigned: n.as_u64(),
            signed: n.as_i64(),
            bits: n.as_f64().map(|x| x.to_bits()),
        },
        serde_json::Value::String(s) => Found::String(s),
        serde_json::Value::Array(items) => Found::Array(items),
        serde_json::Value::Object(fields) => Found::Object(fields),
    })
}

/// `Span::current` of `tracing`, `OpenTelemetrySpanExt::context`,
/// `TraceContextExt::span`, `SpanRef::span_context`, `SpanContext::trace_id`
/// and `TraceId::to_bytes`: the id of the trace that the current span belongs
/// to, its bytes read as one number, highest byte first. It depends on the
/// span that is current at the call, so nothing is promised of it.
#[verifier::external_body]
pub(crate) fn current_trace_id() -> (id: u128) {
    let context = tracing::Span::current().context();
    u128::from_be_bytes(context.span().span_context().trace_id().to_bytes())
}

/// `Span::current` of `tracing`, `OpenTelemetrySpanExt::context`,
/// `BaggageExt::baggage` and `Baggage::iter`: the items of the baggage that
/// travels with the current span, each under its key and as it is held,
/// whatever its kind. The items depend on the span that is current at the
/// call, and their order on the map that holds them, so nothing is promised
/// of them.
#[verifier::external_body]
pub(crate) fn current_baggage() -> (items: Vec<BaggageItem>) {
    let context = tracing::Span::current().context();
    let held = |value: &opentelemetry_api::Value| match value {
        opentelemetry_api::Value::Bool(b) => BaggageValue::Bool(*b),
        opentelemetry_api::Value::I64(n) => BaggageValue::I64(*n),
        opentelemetry_api::Value::F64(x) => BaggageValue::Double { bits: x.to_bits() },
        opentelemetry_api::Value::String(s) => BaggageValue::String(s.as_str().to_string()),
        opentelemetry_api::Value::Array(a) => BaggageValue::Array(a.clone()),
    };
    context.baggage().iter().map(|(k, (v, _))| BaggageItem { key: k.as_str().to_string(), value: held(v) }).collect()
}

} // verus!
