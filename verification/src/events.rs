//! The events that attributes are read from: the requests and responses of
//! the three stages, with the per-request context and the ambient trace
//! state that the pipeline hands over with them.

use crate::json::{find_member, lookup, Member};
use crate::outside::{current_baggage, current_trace_id, header_get, header_values};
use crate::shape::{read_text, text_field};
use crate::text::{header_text, visible_text};
use crate::value::{attribute_of, text_of, view_of, AttributeValue, AttributeValueView};
use vstd::prelude::*;

verus! {

/// Named values: the context of a request, or the environment of the
/// process. The first entry under a name counts.
#[derive(Debug)]
pub struct Entries {
    pub entries: Vec<Member>,
}

impl Entries {
    /// The attribute value under `name`: that of the entry of that name, if
    /// there is one and it converts.
    pub open spec fn value(self, name: Seq<char>) -> Option<AttributeValueView> {
        match lookup(self.entries@, name) {
            Some(m) => attribute_of(m.value),
            None => None,
        }
    }

    /// The text under `name`: that of the entry of that name, if there is one
    /// and it holds a text.
    pub open spec fn text(self, name: Seq<char>) -> Option<Seq<char>> {
        text_field(self.entries@, name)
    }

    /// Looks up the attribute value under `name`.
    pub fn get(&self, name: &str) -> (found: Option<AttributeValue>)
        ensures
            view_of(found) == self.value(name@),
    {
        match find_member(&self.entries, name) {
            Some(m) => AttributeValue::from_json(&m.value),
            None => None,
        }
    }

    /// Looks up the text under `name`.
    pub fn get_text(&self, name: &str) -> (found: Option<String>)
        ensures
            text_of(found) == self.text(name@),
    {
        read_text(&self.entries, name)
    }
}

/// The value of an item of baggage, as the trace holds it.
#[derive(Debug)]
pub enum BaggageValue {
    Bool(bool),
    I64(i64),
    /// A number with a fraction, by its IEEE 754 binary64 bit pattern.
    Double { bits: u64 },
    String(String),
    /// An array, which is no attribute value.
    Array(opentelemetry_api::Array),
}

/// One item of baggage: a key and the value under it.
#[derive(Debug)]
pub struct BaggageItem {
    pub key: String,
    pub value: BaggageValue,
}

/// The baggage of a trace. The first item under a key counts.
#[derive(Debug)]
pub struct Baggage {
    pub items: Vec<BaggageItem>,
}

/// The attribute value that an item of baggage converts to: every kind but
/// an array converts.
pub open spec fn baggage_attribute(value: BaggageValue) -> Option<AttributeValueView> {
    match value {
        BaggageValue::Bool(b) => Some(AttributeValueView::Bool(b)),
        BaggageValue::I64(n) => Some(AttributeValueView::I64(n)),
        BaggageValue::Double { bits } => Some(AttributeValueView::Double { bits }),
        BaggageValue::String(s) => Some(AttributeValueView::String(s@)),
        BaggageValue::Array(_) => None,
    }
}

/// The first of `items` under `key`.
pub open spec fn first_item(items: Seq<BaggageItem>, key: Seq<char>) -> Option<BaggageItem>
    decreases items.len(),
{
    if items.len() == 0 {
        None
    } else if items[0].key@ == key {
        Some(items[0])
    } else {
        first_item(items.drop_first(), key)
    }
}

impl Baggage {
    /// The attribute value under `key`: that of the first item under it, if
    /// there is one and it converts.
    pub open spec fn value(self, key: Seq<char>) -> Option<AttributeValueView> {
        match first_item(self.items@, key) {
            Some(item) => baggage_attribute(item.value),
            None => None,
        }
    }

    /// Looks up the attribute value under `key`.
    pub fn get(&self, key: &str) -> (found: Option<AttributeValue>)
        ensures
            view_of(found) == self.value(key@),
    {
        let wanted = key.to_owned();
        let mut i: usize = 0;
        assert(self.items@.skip(0) == self.items@);
        while i < self.items.len()
            invariant
                i <= self.items.len(),
                wanted@ == key@,
                first_item(self.items@, key@) == first_item(self.items@.skip(i as int), key@),
            decreases self.items.len() - i,
        {
            assert(self.items@.skip(i as int)[0] == self.items[i as int]);
            assert(self.items@.skip(i as int).drop_first() == self.items@.skip(i + 1));
            if self.items[i].key == wanted {
                return match &self.items[i].value {
                    BaggageValue::Bool(b) => Some(AttributeValue::Bool(*b)),
                    BaggageValue::I64(n) => Some(AttributeValue::I64(*n)),
                    BaggageValue::Double { bits } => Some(AttributeValue::Double { bits: *bits }),
                    BaggageValue::String(s) => Some(AttributeValue::String(s.clone())),
                    BaggageValue::Array(_) => None,
                };
            }
            i += 1;
        }
        None
    }
}

/// What surrounds an event without being part of it: the trace that is
/// current when the event passes, the baggage that travels with the trace,
/// and the environment of the process, each as it is at that moment.
#[derive(Debug)]
pub struct Ambient {
    /// The id of the current trace, if a trace is active.
    pub trace_id: Option<u128>,
    /// The baggage of the current trace.
    pub baggage: Baggage,
    /// The environment variables of the process.
    pub environment: Entries,
}

impl Ambient {
    /// What surrounds an event, from what was read of the current span:
    /// the id of its trace as one number, where zero means that no trace is
    /// active, and the items of its baggage.
    pub fn of(trace_id: u128, baggage: Vec<BaggageItem>, environment: Entries) -> (ambient:
        Ambient)
        ensures
            ambient.trace_id == (if trace_id == 0 {
                None
            } else {
                Some(trace_id)
            }),
            ambient.baggage.items == baggage,
            ambient.environment == environment,
    {
        Ambient {
            trace_id: if trace_id == 0 {
                None
            } else {
                Some(trace_id)
            },
            baggage: Baggage { items: baggage },
            environment,
        }
    }

    /// What surrounds an event that passes now: the trace and the baggage of
    /// the current span, beside the environment that the caller read.
    pub fn current(environment: Entries) -> (ambient: Ambient)
        ensures
            ambient.environment == environment,
            ambient.trace_id != Some(0u128),
    {
        Ambient::of(current_trace_id(), current_baggage(), environment)
    }
}

/// The version of HTTP that a request was made with.
#[derive(Clone, Copy, Debug)]
pub enum HttpVersion {
    Http09,
    Http10,
    Http11,
    H2,
    H3,
}

impl HttpVersion {
    /// The version as it is written in telemetry.
    pub open spec fn name(self) -> Seq<char> {
        match self {
            HttpVersion::Http09 => "HTTP/0.9"@,
            HttpVersion::Http10 => "HTTP/1.0"@,
            HttpVersion::Http11 => "HTTP/1.1"@,
            HttpVersion::H2 => "HTTP/2.0"@,
            HttpVersion::H3 => "HTTP/3.0"@,
        }
    }

    /// The version as it is written in telemetry.
    pub fn text(&self) -> (text: String)
        ensures
            text@ == self.name(),
    {
        match self {
            HttpVersion::Http09 => "HTTP/0.9".to_owned(),
            HttpVersion::Http10 => "HTTP/1.0".to_owned(),
            HttpVersion::Http11 => "HTTP/1.1".to_owned(),
            HttpVersion::H2 => "HTTP/2.0".to_owned(),
            HttpVersion::H3 => "HTTP/3.0".to_owned(),
        }
    }
}

/// The target of a request, taken apart.
#[derive(Debug)]
pub struct UriParts {
    /// The whole target as it is written.
    pub text: String,
    /// The scheme, if the target has one.
    pub scheme: Option<String>,
    /// The host, if the target has one.
    pub host: Option<String>,
    /// The port, if the target has one.
    pub port: Option<u16>,
    /// The path.
    pub path: String,
    /// The query, if the target has one.
    pub query: Option<String>,
}

/// The kind of a GraphQL operation.
#[derive(Clone, Copy, Debug)]
pub enum OperationType {
    Query,
    Mutation,
    Subscription,
}

impl OperationType {
    /// The kind as it is written in telemetry.
    pub open spec fn name(self) -> Seq<char> {
        match self {
            OperationType::Query => "query"@,
            OperationType::Mutation => "mutation"@,
            OperationType::Subscription => "subscription"@,
        }
    }

    /// The kind as it is written in telemetry.
    pub fn text(&self) -> (text: String)
        ensures
            text@ == self.name(),
    {
        match self {
            OperationType::Query => "query".to_owned(),
            OperationType::Mutation => "mutation".to_owned(),
            OperationType::Subscription => "subscription".to_owned(),
        }
    }
}

/// The body of a GraphQL request, as far as attributes are read from it.
#[derive(Debug)]
pub struct GraphqlRequest {
    /// The name of the operation, if the request names one.
    pub operation_name: Option<String>,
    /// The variables of the request.
    pub variables: serde_json_bytes::Map<serde_json_bytes::ByteString, serde_json_bytes::Value>,
}

/// A request at the edge-facing stage.
#[derive(Debug)]
pub struct RouterRequest {
    pub headers: http::HeaderMap<http::HeaderValue>,
    pub uri: UriParts,
    pub version: HttpVersion,
    pub context: Entries,
    pub ambient: Ambient,
}

/// A response at the edge-facing stage.
#[derive(Debug)]
pub struct RouterResponse {
    pub headers: http::HeaderMap<http::HeaderValue>,
    /// The status code of the response.
    pub status: u16,
    pub context: Entries,
    pub ambient: Ambient,
}

/// A request at the federated-query stage.
#[derive(Debug)]
pub struct SupergraphRequest {
    pub headers: http::HeaderMap<http::HeaderValue>,
    pub body: GraphqlRequest,
    pub context: Entries,
    pub ambient: Ambient,
}

/// A response at the federated-query stage.
#[derive(Debug)]
pub struct SupergraphResponse {
    pub headers: http::HeaderMap<http::HeaderValue>,
    pub context: Entries,
}

/// A request at the downstream-service stage: the request that is sent to
/// the service, beside the federated query that caused it.
#[derive(Debug)]
pub struct SubgraphRequest {
    /// The headers of the federated query's request.
    pub supergraph_headers: http::HeaderMap<http::HeaderValue>,
    /// The body of the federated query's request.
    pub supergraph_body: GraphqlRequest,
    /// The headers of the request to the service.
    pub subgraph_headers: http::HeaderMap<http::HeaderValue>,
    /// The body of the request to the service.
    pub subgraph_body: GraphqlRequest,
    /// The kind of the operation that is sent to the service.
    pub operation_kind: OperationType,
    pub context: Entries,
    pub ambient: Ambient,
}

/// A response at the downstream-service stage.
#[derive(Debug)]
pub struct SubgraphResponse {
    pub headers: http::HeaderMap<http::HeaderValue>,
    /// The body of the response, a JSON document.
    pub body: serde_json::Value,
    pub context: Entries,
}

/// A failure of a stage. Attributes do not depend on what failed.
#[derive(Debug)]
pub struct StageError {
    /// What went wrong, in words.
    pub message: String,
}

/// The text of the first value of the header called `name`: absent where
/// there is no such header, and where its value is not visible text.
pub open spec fn header(
    headers: http::HeaderMap<http::HeaderValue>,
    name: Seq<char>,
) -> Option<Seq<char>> {
    if header_values(headers).contains_key(name) {
        visible_text(header_values(headers)[name])
    } else {
        None
    }
}

/// Reads the header called `name` as text.
pub fn read_header(headers: &http::HeaderMap<http::HeaderValue>, name: &str) -> (text: Option<
    String,
>)
    ensures
        text_of(text) == header(*headers, name@),
{
    match header_get(headers, name) {
        Some(bytes) => header_text(&bytes),
        None => None,
    }
}

} // verus!
