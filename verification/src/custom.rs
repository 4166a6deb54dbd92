//! What the custom attribute rules resolve to.
//!
//! Every rule that has a source and a default resolves in the same order:
//! to what the source yields, else to the default, else to nothing.

use crate::events::{
    header, read_header, Ambient, RouterRequest, RouterResponse, SubgraphRequest, SubgraphResponse,
    SupergraphRequest, SupergraphResponse,
};
use crate::names::{OPERATION_KIND, OPERATION_NAME};
use crate::outside::{body_get, body_leaves, variable_text, variable_texts};
use crate::protocol::GetAttribute;
use crate::rules::{
    OperationName, RouterCustomAttribute, SubgraphCustomAttribute, SupergraphCustomAttribute,
    TraceIdFormat,
};
use crate::text::{hex, hex_text};
use crate::value::{
    found_or_default, found_or_text, or_default, text_attribute, text_of, text_value, view_of,
    AttributeValue, AttributeValueView,
};
use vstd::prelude::*;

verus! {

/// The current trace id in the form asked for: nothing where no trace is
/// active.
pub open spec fn trace_id_value(ambient: Ambient, form: TraceIdFormat) -> Option<
    AttributeValueView,
> {
    match ambient.trace_id {
        Some(id) => match form {
            TraceIdFormat::OpenTelemetry => Some(AttributeValueView::String(hex(id as nat, 32))),
            TraceIdFormat::Datadog => Some(AttributeValueView::U128(id)),
        },
        None => None,
    }
}

/// Writes the current trace id in the form asked for.
pub fn trace_id_attribute(ambient: &Ambient, form: &TraceIdFormat) -> (value: Option<
    AttributeValue,
>)
    ensures
        view_of(value) == trace_id_value(*ambient, *form),
{
    match ambient.trace_id {
        Some(id) => match form {
            TraceIdFormat::OpenTelemetry => Some(AttributeValue::String(hex_text(id))),
            TraceIdFormat::Datadog => Some(AttributeValue::U128(id)),
        },
        None => None,
    }
}

/// The JSON text of the variable called `name`.
pub open spec fn variable(
    variables: serde_json_bytes::Map<serde_json_bytes::ByteString, serde_json_bytes::Value>,
    name: Seq<char>,
) -> Option<Seq<char>> {
    if variable_texts(variables).contains_key(name) {
        Some(variable_texts(variables)[name])
    } else {
        None
    }
}

/// The value that `path` leads to in `body`, if it leads to a truth value, a
/// number or a text. The empty path leads to the whole body, which is none
/// of these.
pub open spec fn body_value(body: serde_json::Value, path: Seq<char>) -> Option<
    AttributeValueView,
> {
    if path.len() > 0 && body_leaves(body).contains_key(path) {
        Some(body_leaves(body)[path])
    } else {
        None
    }
}

/// Follows `path` into `body`.
pub fn read_body(body: &serde_json::Value, path: &str) -> (value: Option<AttributeValue>)
    ensures
        view_of(value) == body_value(*body, path@),
{
    if path.is_empty() {
        return None;
    }
    match body_get(body, path) {
        Some(found) => AttributeValue::from_found(found),
        None => None,
    }
}

/// What a rule resolves to whose source is reserved: nothing is read for it
/// yet, so it finds nothing and resolves to its default.
pub open spec fn reserved(default: Option<Seq<char>>) -> Option<AttributeValueView> {
    or_default(None, text_value(default))
}

/// The name of an operation in the form asked for, where `found` is the name
/// itself.
pub open spec fn operation_name_value(
    form: OperationName,
    found: Option<AttributeValueView>,
    default: Option<Seq<char>>,
) -> Option<AttributeValueView> {
    match form {
        OperationName::String => or_default(found, text_value(default)),
        OperationName::Hash => reserved(default),
    }
}

/// Writes the name of an operation in the form asked for.
pub fn operation_name_attribute(
    form: &OperationName,
    found: Option<AttributeValue>,
    default: &Option<String>,
) -> (value: Option<AttributeValue>)
    ensures
        view_of(value) == operation_name_value(*form, view_of(found), text_of(*default)),
{
    match form {
        OperationName::String => found_or_text(found, default),
        OperationName::Hash => found_or_text(None, default),
    }
}

impl GetAttribute<RouterRequest, RouterResponse> for RouterCustomAttribute {
    open spec fn request_value(&self, request: &RouterRequest) -> Option<AttributeValueView> {
        match self {
            RouterCustomAttribute::RequestHeader { request_header, default, .. } => or_default(
                text_value(header(request.headers, request_header@)),
                view_of(*default),
            ),
            RouterCustomAttribute::Env { env, default, .. } => or_default(
                text_value(request.ambient.environment.text(env@)),
                text_value(text_of(*default)),
            ),
            RouterCustomAttribute::TraceId { trace_id } => trace_id_value(
                request.ambient,
                *trace_id,
            ),
            RouterCustomAttribute::Baggage { baggage, default, .. } => or_default(
                request.ambient.baggage.value(baggage@),
                view_of(*default),
            ),
            _ => None,
        }
    }

    open spec fn response_value(&self, response: &RouterResponse) -> Option<AttributeValueView> {
        match self {
            RouterCustomAttribute::ResponseHeader { response_header, default, .. } => or_default(
                text_value(header(response.headers, response_header@)),
                view_of(*default),
            ),
            RouterCustomAttribute::ResponseContext { response_context, default, .. } => or_default(
                response.context.value(response_context@),
                view_of(*default),
            ),
            RouterCustomAttribute::Baggage { baggage, default, .. } => or_default(
                response.ambient.baggage.value(baggage@),
                view_of(*default),
            ),
            _ => None,
        }
    }

    fn on_request(&self, request: &RouterRequest) -> (value: Option<AttributeValue>) {
        match self {
            RouterCustomAttribute::RequestHeader { request_header, default, .. } => {
                let found = read_header(&request.headers, request_header.as_str());
                found_or_default(text_attribute(found), default)
            },
            RouterCustomAttribute::Env { env, default, .. } => {
                let found = request.ambient.environment.get_text(env.as_str());
                found_or_text(text_attribute(found), default)
            },
            RouterCustomAttribute::TraceId { trace_id } => trace_id_attribute(
                &request.ambient,
                trace_id,
            ),
            RouterCustomAttribute::Baggage { baggage, default, .. } => found_or_default(
                request.ambient.baggage.get(baggage.as_str()),
                default,
            ),
            _ => None,
        }
    }

    fn on_response(&self, response: &RouterResponse) -> (value: Option<AttributeValue>) {
        match self {
            RouterCustomAttribute::ResponseHeader { response_header, default, .. } => {
                let found = read_header(&response.headers, response_header.as_str());
                found_or_default(text_attribute(found), default)
            },
            RouterCustomAttribute::ResponseContext {
                response_context,
                default,
                ..
            } => found_or_default(response.context.get(response_context.as_str()), default),
            RouterCustomAttribute::Baggage { baggage, default, .. } => found_or_default(
                response.ambient.baggage.get(baggage.as_str()),
                default,
            ),
            _ => None,
        }
    }
}

impl GetAttribute<SupergraphRequest, SupergraphResponse> for SupergraphCustomAttribute {
    open spec fn request_value(&self, request: &SupergraphRequest) -> Option<AttributeValueView> {
        match self {
            SupergraphCustomAttribute::OperationName {
                operation_name,
                default,
                ..
            } => operation_name_value(
                *operation_name,
                request.context.value(OPERATION_NAME@),
                text_of(*default),
            ),
            SupergraphCustomAttribute::OperationKind { .. } => request.context.value(
                OPERATION_KIND@,
            ),
            SupergraphCustomAttribute::QueryVariable { query_variable, default, .. } => or_default(
                text_value(variable(request.body.variables, query_variable@)),
                view_of(*default),
            ),
            SupergraphCustomAttribute::RequestHeader { request_header, default, .. } => or_default(
                text_value(header(request.headers, request_header@)),
                view_of(*default),
            ),
            SupergraphCustomAttribute::RequestContext {
                request_context,
                default,
                ..
            } => or_default(request.context.value(request_context@), view_of(*default)),
            SupergraphCustomAttribute::Baggage { baggage, default, .. } => or_default(
                request.ambient.baggage.value(baggage@),
                view_of(*default),
            ),
            SupergraphCustomAttribute::Env { env, default, .. } => or_default(
                text_value(request.ambient.environment.text(env@)),
                text_value(text_of(*default)),
            ),
            SupergraphCustomAttribute::Query { default, .. } => reserved(text_of(*default)),
            _ => None,
        }
    }

    open spec fn response_value(&self, response: &SupergraphResponse) -> Option<
        AttributeValueView,
    > {
        match self {
            SupergraphCustomAttribute::ResponseHeader {
                response_header,
                default,
                ..
            } => or_default(
                text_value(header(response.headers, response_header@)),
                view_of(*default),
            ),
            SupergraphCustomAttribute::ResponseContext {
                response_context,
                default,
                ..
            } => or_default(response.context.value(response_context@), view_of(*default)),
            _ => None,
        }
    }

    fn on_request(&self, request: &SupergraphRequest) -> (value: Option<AttributeValue>) {
        match self {
            SupergraphCustomAttribute::OperationName {
                operation_name,
                default,
                ..
            } => operation_name_attribute(
                operation_name,
                request.context.get(OPERATION_NAME),
                default,
            ),
            SupergraphCustomAttribute::OperationKind { .. } => request.context.get(OPERATION_KIND),
            SupergraphCustomAttribute::QueryVariable { query_variable, default, .. } => {
                let found = variable_text(&request.body.variables, query_variable.as_str());
                found_or_default(text_attribute(found), default)
            },
            SupergraphCustomAttribute::RequestHeader { request_header, default, .. } => {
                let found = read_header(&request.headers, request_header.as_str());
                found_or_default(text_attribute(found), default)
            },
            SupergraphCustomAttribute::RequestContext {
                request_context,
                default,
                ..
            } => found_or_default(request.context.get(request_context.as_str()), default),
            SupergraphCustomAttribute::Baggage { baggage, default, .. } => found_or_default(
                request.ambient.baggage.get(baggage.as_str()),
                default,
            ),
            SupergraphCustomAttribute::Env { env, default, .. } => {
                let found = request.ambient.environment.get_text(env.as_str());
                found_or_text(text_attribute(found), default)
            },
            SupergraphCustomAttribute::Query { default, .. } => found_or_text(None, default),
            _ => None,
        }
    }

    fn on_response(&self, response: &SupergraphResponse) -> (value: Option<AttributeValue>) {
        match self {
            SupergraphCustomAttribute::ResponseHeader { response_header, default, .. } => {
                let found = read_header(&response.headers, response_header.as_str());
                found_or_default(text_attribute(found), default)
            },
            SupergraphCustomAttribute::ResponseContext {
                response_context,
                default,
                ..
            } => found_or_default(response.context.get(response_context.as_str()), default),
            _ => None,
        }
    }
}

impl GetAttribute<SubgraphRequest, SubgraphResponse> for SubgraphCustomAttribute {
    open spec fn request_value(&self, request: &SubgraphRequest) -> Option<AttributeValueView> {
        match self {
            SubgraphCustomAttribute::SubgraphOperationName {
                subgraph_operation_name,
                default,
                ..
            } => operation_name_value(
                *subgraph_operation_name,
                text_value(text_of(request.subgraph_body.operation_name)),
                text_of(*default),
            ),
            SubgraphCustomAttribute::SupergraphOperationName {
                supergraph_operation_name,
                default,
                ..
            } => operation_name_value(
                *supergraph_operation_name,
                request.context.value(OPERATION_NAME@),
                text_of(*default),
            ),
            SubgraphCustomAttribute::SubgraphOperationKind { .. } => Some(
                AttributeValueView::String(request.operation_kind.name()),
            ),
            SubgraphCustomAttribute::SupergraphOperationKind { .. } => request.context.value(
                OPERATION_KIND@,
            ),
            SubgraphCustomAttribute::SubgraphQueryVariable {
                subgraph_query_variable,
                default,
                ..
            } => or_default(
                text_value(variable(request.subgraph_body.variables, subgraph_query_variable@)),
                view_of(*default),
            ),
            SubgraphCustomAttribute::SupergraphQueryVariable {
                supergraph_query_variable,
                default,
                ..
            } => or_default(
                text_value(variable(request.supergraph_body.variables, supergraph_query_variable@)),
                view_of(*default),
            ),
            SubgraphCustomAttribute::SubgraphRequestHeader {
                subgraph_request_header,
                default,
                ..
            } => or_default(
                text_value(header(request.subgraph_headers, subgraph_request_header@)),
                view_of(*default),
            ),
            SubgraphCustomAttribute::SupergraphRequestHeader {
                supergraph_request_header,
                default,
                ..
            } => or_default(
                text_value(header(request.supergraph_headers, supergraph_request_header@)),
                view_of(*default),
            ),
            SubgraphCustomAttribute::RequestContext {
                request_context,
                default,
                ..
            } => or_default(request.context.value(request_context@), view_of(*default)),
            SubgraphCustomAttribute::Baggage { baggage, default, .. } => or_default(
                request.ambient.baggage.value(baggage@),
                view_of(*default),
            ),
            SubgraphCustomAttribute::Env { env, default, .. } => or_default(
                text_value(request.ambient.environment.text(env@)),
                text_value(text_of(*default)),
            ),
            SubgraphCustomAttribute::SubgraphQuery { default, .. } => reserved(text_of(*default)),
            _ => None,
        }
    }

    open spec fn response_value(&self, response: &SubgraphResponse) -> Option<AttributeValueView> {
        match self {
            SubgraphCustomAttribute::SubgraphResponseHeader {
                subgraph_response_header,
                default,
                ..
            } => or_default(
                text_value(header(response.headers, subgraph_response_header@)),
                view_of(*default),
            ),
            SubgraphCustomAttribute::SubgraphResponseBody {
                subgraph_response_body,
                default,
                ..
            } => or_default(
                body_value(response.body, subgraph_response_body@),
                view_of(*default),
            ),
            SubgraphCustomAttribute::ResponseContext {
                response_context,
                default,
                ..
            } => or_default(response.context.value(response_context@), view_of(*default)),
            SubgraphCustomAttribute::SupergraphResponseHeader { default, .. } => or_default(
                None,
                view_of(*default),
            ),
            _ => None,
        }
    }

    fn on_request(&self, request: &SubgraphRequest) -> (value: Option<AttributeValue>) {
        match self {
            SubgraphCustomAttribute::SubgraphOperationName {
                subgraph_operation_name,
                default,
                ..
            } => operation_name_attribute(
                subgraph_operation_name,
                text_attribute(request.subgraph_body.operation_name.clone()),
                default,
            ),
            SubgraphCustomAttribute::SupergraphOperationName {
                supergraph_operation_name,
                default,
                ..
            } => operation_name_attribute(
                supergraph_operation_name,
                request.context.get(OPERATION_NAME),
                default,
            ),
            SubgraphCustomAttribute::SubgraphOperationKind { .. } => Some(
                AttributeValue::String(request.operation_kind.text()),
            ),
            SubgraphCustomAttribute::SupergraphOperationKind { .. } => request.context.get(
                OPERATION_KIND,
            ),
            SubgraphCustomAttribute::SubgraphQueryVariable {
                subgraph_query_variable,
                default,
                ..
            } => {
                let found = variable_text(
                    &request.subgraph_body.variables,
                    subgraph_query_variable.as_str(),
                );
                found_or_default(text_attribute(found), default)
            },
            SubgraphCustomAttribute::SupergraphQueryVariable {
                supergraph_query_variable,
                default,
                ..
            } => {
                let found = variable_text(
                    &request.supergraph_body.variables,
                    supergraph_query_variable.as_str(),
                );
                found_or_default(text_attribute(found), default)
            },
            SubgraphCustomAttribute::SubgraphRequestHeader {
                subgraph_request_header,
                default,
                ..
            } => {
                let found = read_header(
                    &request.subgraph_headers,
                    subgraph_request_header.as_str(),
                );
                found_or_default(text_attribute(found), default)
            },
            SubgraphCustomAttribute::SupergraphRequestHeader {
                supergraph_request_header,
                default,
                ..
            } => {
                let found = read_header(
                    &request.supergraph_headers,
                    supergraph_request_header.as_str(),
                );
                found_or_default(text_attribute(found), default)
            },
            SubgraphCustomAttribute::RequestContext {
                request_context,
                default,
                ..
            } => found_or_default(request.context.get(request_context.as_str()), default),
            SubgraphCustomAttribute::Baggage { baggage, default, .. } => found_or_default(
                request.ambient.baggage.get(baggage.as_str()),
                default,
            ),
            SubgraphCustomAttribute::Env { env, default, .. } => {
                let found = request.ambient.environment.get_text(env.as_str());
                found_or_text(text_attribute(found), default)
            },
            SubgraphCustomAttribute::SubgraphQuery { default, .. } => found_or_text(None, default),
            _ => None,
        }
    }

    fn on_response(&self, response: &SubgraphResponse) -> (value: Option<AttributeValue>) {
        match self {
            SubgraphCustomAttribute::SubgraphResponseHeader {
                subgraph_response_header,
                default,
                ..
            } => {
                let found = read_header(&response.headers, subgraph_response_header.as_str());
                found_or_default(text_attribute(found), default)
            },
            SubgraphCustomAttribute::SubgraphResponseBody {
                subgraph_response_body,
                default,
                ..
            } => found_or_default(
                read_body(&response.body, subgraph_response_body.as_str()),
                default,
            ),
            SubgraphCustomAttribute::ResponseContext {
                response_context,
                default,
                ..
            } => found_or_default(response.context.get(response_context.as_str()), default),
            SubgraphCustomAttribute::SupergraphResponseHeader { default, .. } => found_or_default(
                None,
                default,
            ),
            _ => None,
        }
    }
}

} // verus!
