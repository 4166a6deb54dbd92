//! The custom attribute rules of the three stages, and how configuration
//! denotes them.
//!
//! A rule is written as an object without a tag. Which kind of rule it is
//! follows from its characteristic field: `request_header`, `baggage`,
//! `trace_id` and so on. An object is a rule of a kind if it has that field,
//! holding a text, and beside it nothing but what the kind allows.

use crate::json::{Json, Member};
use crate::outside::{body_path_is_valid, valid_body_path};
use crate::shape::{
    default_value, parse_text_rule, parse_value_rule, text_field, text_rule, value_rule, DEFAULT,
    REDACT,
};
use crate::text::same_text;
use crate::value::{text_of, view_of, AttributeValue};
use vstd::prelude::*;

verus! {

/// The events of a stage that telemetry can be attached to.
#[derive(Clone, Copy, Debug)]
pub enum RouterEvent {
    /// A request passes.
    Request,
    /// A response passes.
    Response,
    /// The stage fails.
    Error,
}

/// How a trace id is written.
#[derive(Clone, Copy, Debug)]
pub enum TraceIdFormat {
    /// As OpenTelemetry writes it: 32 hexadecimal digits.
    OpenTelemetry,
    /// As Datadog writes it: an unsigned number.
    Datadog,
}

/// How the name of an operation is written.
#[derive(Clone, Copy, Debug)]
pub enum OperationName {
    /// The name itself.
    String,
    /// A hash of the name. Reserved: no hash is fixed yet, so a rule of this
    /// form finds nothing and resolves to its default.
    Hash,
}

/// How a query is written.
#[derive(Clone, Copy, Debug)]
pub enum Query {
    /// The query itself.
    String,
}

/// How the kind of an operation is written.
#[derive(Clone, Copy, Debug)]
pub enum OperationKind {
    /// The kind itself.
    String,
}

impl TraceIdFormat {
    /// The forms by their names in configuration.
    pub open spec fn choices() -> spec_fn(Seq<char>) -> Option<TraceIdFormat> {
        |text: Seq<char>| TraceIdFormat::named(text)
    }

    /// The form that configuration calls `text`.
    pub open spec fn named(text: Seq<char>) -> Option<TraceIdFormat> {
        if text == "open_telemetry"@ {
            Some(TraceIdFormat::OpenTelemetry)
        } else if text == "datadog"@ {
            Some(TraceIdFormat::Datadog)
        } else {
            None
        }
    }

    /// The form that configuration calls `text`.
    pub fn from_text(text: &str) -> (form: Option<TraceIdFormat>)
        ensures
            form == TraceIdFormat::named(text@),
    {
        if same_text(text, "open_telemetry") {
            Some(TraceIdFormat::OpenTelemetry)
        } else if same_text(text, "datadog") {
            Some(TraceIdFormat::Datadog)
        } else {
            None
        }
    }
}

impl OperationName {
    /// The forms by their names in configuration.
    pub open spec fn choices() -> spec_fn(Seq<char>) -> Option<OperationName> {
        |text: Seq<char>| OperationName::named(text)
    }

    /// The form that configuration calls `text`.
    pub open spec fn named(text: Seq<char>) -> Option<OperationName> {
        if text == "string"@ {
            Some(OperationName::String)
        } else if text == "hash"@ {
            Some(OperationName::Hash)
        } else {
            None
        }
    }

    /// The form that configuration calls `text`.
    pub fn from_text(text: &str) -> (form: Option<OperationName>)
        ensures
            form == OperationName::named(text@),
    {
        if same_text(text, "string") {
            Some(OperationName::String)
        } else if same_text(text, "hash") {
            Some(OperationName::Hash)
        } else {
            None
        }
    }
}

impl Query {
    /// The forms by their names in configuration.
    pub open spec fn choices() -> spec_fn(Seq<char>) -> Option<Query> {
        |text: Seq<char>| Query::named(text)
    }

    /// The form that configuration calls `text`.
    pub open spec fn named(text: Seq<char>) -> Option<Query> {
        if text == "string"@ {
            Some(Query::String)
        } else {
            None
        }
    }

    /// The form that configuration calls `text`.
    pub fn from_text(text: &str) -> (form: Option<Query>)
        ensures
            form == Query::named(text@),
    {
        if same_text(text, "string") {
            Some(Query::String)
        } else {
            None
        }
    }
}

impl OperationKind {
    /// The forms by their names in configuration.
    pub open spec fn choices() -> spec_fn(Seq<char>) -> Option<OperationKind> {
        |text: Seq<char>| OperationKind::named(text)
    }

    /// The form that configuration calls `text`.
    pub open spec fn named(text: Seq<char>) -> Option<OperationKind> {
        if text == "string"@ {
            Some(OperationKind::String)
        } else {
            None
        }
    }

    /// The form that configuration calls `text`.
    pub fn from_text(text: &str) -> (form: Option<OperationKind>)
        ensures
            form == OperationKind::named(text@),
    {
        if same_text(text, "string") {
            Some(OperationKind::String)
        } else {
            None
        }
    }
}

/// The form that a rule chooses under its characteristic field `field`: the
/// rule has the shape of a text rule, and the text is the name of a form.
pub open spec fn chosen<Form>(
    members: Seq<Member>,
    field: Seq<char>,
    with_default: bool,
    with_redact: bool,
    choices: spec_fn(Seq<char>) -> Option<Form>,
) -> Option<Form> {
    if text_rule(members, field, with_default, with_redact) {
        choices(text_field(members, field).unwrap())
    } else {
        None
    }
}

/// A kind of custom attribute that configuration can denote.
pub trait CustomAttribute: Sized {
    /// Whether `value` denotes a rule of this kind.
    spec fn accepts(value: Json) -> bool;

    /// Whether this rule is the one that `value` denotes.
    spec fn parsed_from(&self, value: Json) -> bool;

    /// The rule that `value` denotes, if it denotes one.
    fn parse(value: &Json) -> (rule: Option<Self>)
        ensures
            match rule {
                Some(r) => Self::accepts(*value) && r.parsed_from(*value),
                None => !Self::accepts(*value),
            },
    ;
}

/// A custom attribute of the edge-facing stage.
#[derive(Debug)]
#[allow(inconsistent_fields)]
pub enum RouterCustomAttribute {
    /// A header of the request.
    RequestHeader {
        /// The name that the value is looked up under.
        request_header: String,
        /// Reserved: read from configuration where the rule allows it, never consulted.
        redact: Option<String>,
        /// What the rule resolves to where its source yields nothing.
        default: Option<AttributeValue>,
    },
    /// A header of the response.
    ResponseHeader {
        /// The name that the value is looked up under.
        response_header: String,
        /// Reserved: read from configuration where the rule allows it, never consulted.
        redact: Option<String>,
        /// What the rule resolves to where its source yields nothing.
        default: Option<AttributeValue>,
    },
    /// The trace id of the request.
    TraceId {
        /// The form in which the trace id is written.
        trace_id: TraceIdFormat,
    },
    /// An entry of the context, read when the response passes.
    ResponseContext {
        /// The name that the value is looked up under.
        response_context: String,
        /// Reserved: read from configuration where the rule allows it, never consulted.
        redact: Option<String>,
        /// What the rule resolves to where its source yields nothing.
        default: Option<AttributeValue>,
    },
    /// An item of the baggage.
    Baggage {
        /// The name that the value is looked up under.
        baggage: String,
        /// Reserved: read from configuration where the rule allows it, never consulted.
        redact: Option<String>,
        /// What the rule resolves to where its source yields nothing.
        default: Option<AttributeValue>,
    },
    /// An environment variable.
    Env {
        /// The name of the variable.
        env: String,
        /// Reserved: read from configuration where the rule allows it, never consulted.
        redact: Option<String>,
        /// What the rule resolves to where its source yields nothing.
        default: Option<String>,
    },
}

impl CustomAttribute for RouterCustomAttribute {
    open spec fn accepts(value: Json) -> bool {
        value matches Json::Object(members) && {
            let m = members@;
            ||| value_rule(m, "request_header"@)
            ||| value_rule(m, "response_header"@)
            ||| chosen(m, "trace_id"@, false, false, TraceIdFormat::choices()) is Some
            ||| value_rule(m, "response_context"@)
            ||| value_rule(m, "baggage"@)
            ||| text_rule(m, "env"@, true, false)
        }
    }

    open spec fn parsed_from(&self, value: Json) -> bool {
        value matches Json::Object(members) && {
            let m = members@;
            if value_rule(m, "request_header"@) {
                *self matches RouterCustomAttribute::RequestHeader { request_header: source, redact, default }
                    && text_field(m, "request_header"@) == Some(source@) && redact is None && view_of(default)
                    == default_value(m)
            } else if value_rule(m, "response_header"@) {
                *self matches RouterCustomAttribute::ResponseHeader { response_header: source, redact, default }
                    && text_field(m, "response_header"@) == Some(source@) && redact is None && view_of(default)
                    == default_value(m)
            } else if chosen(m, "trace_id"@, false, false, TraceIdFormat::choices()) is Some {
                *self matches RouterCustomAttribute::TraceId { trace_id: form }
                    && chosen(m, "trace_id"@, false, false, TraceIdFormat::choices()) == Some(form)
            } else if value_rule(m, "response_context"@) {
                *self matches RouterCustomAttribute::ResponseContext { response_context: source, redact, default }
                    && text_field(m, "response_context"@) == Some(source@) && redact is None && view_of(default)
                    == default_value(m)
            } else if value_rule(m, "baggage"@) {
                *self matches RouterCustomAttribute::Baggage { baggage: source, redact, default }
                    && text_field(m, "baggage"@) == Some(source@) && redact is None && view_of(default)
                    == default_value(m)
            } else if text_rule(m, "env"@, true, false) {
                *self matches RouterCustomAttribute::Env { env: source, redact, default }
                    && text_field(m, "env"@) == Some(source@) && redact is None && text_of(default)
                    == text_field(m, DEFAULT@)
            } else {
                false
            }
        }
    }

    fn parse(value: &Json) -> (rule: Option<RouterCustomAttribute>) {
        if let Json::Object(members) = value {
            if let Some((source, default)) = parse_value_rule(members, "request_header") {
                return Some(RouterCustomAttribute::RequestHeader { request_header: source, redact: None, default });
            }
            if let Some((source, default)) = parse_value_rule(members, "response_header") {
                return Some(RouterCustomAttribute::ResponseHeader { response_header: source, redact: None, default });
            }
            if let Some((source, _, _)) = parse_text_rule(members, "trace_id", false, false) {
                if let Some(form) = TraceIdFormat::from_text(source.as_str()) {
                    return Some(RouterCustomAttribute::TraceId { trace_id: form });
                }
            }
            if let Some((source, default)) = parse_value_rule(members, "response_context") {
                return Some(RouterCustomAttribute::ResponseContext { response_context: source, redact: None, default });
            }
            if let Some((source, default)) = parse_value_rule(members, "baggage") {
                return Some(RouterCustomAttribute::Baggage { baggage: source, redact: None, default });
            }
            if let Some((source, default, _)) = parse_text_rule(members, "env", true, false) {
                return Some(RouterCustomAttribute::Env { env: source, redact: None, default });
            }
        }
        None
    }
}

/// A custom attribute of the federated-query stage.
#[derive(Debug)]
#[allow(inconsistent_fields)]
pub enum SupergraphCustomAttribute {
    /// The name of the operation.
    OperationName {
        /// The form in which the name is written.
        operation_name: OperationName,
        /// Reserved: read from configuration where the rule allows it, never consulted.
        redact: Option<String>,
        /// What the rule resolves to where its source yields nothing.
        default: Option<String>,
    },
    /// The kind of the operation: query, mutation or subscription.
    OperationKind {
        /// The form in which the kind is written.
        operation_kind: OperationKind,
        /// Reserved: read from configuration where the rule allows it, never consulted.
        redact: Option<String>,
    },
    /// The GraphQL query. Reserved: no query is read yet, so the rule resolves to its default.
    Query {
        /// The form in which the query is written.
        query: Query,
        /// Reserved: read from configuration where the rule allows it, never consulted.
        redact: Option<String>,
        /// What the rule resolves to where its source yields nothing.
        default: Option<String>,
    },
    /// A variable of the GraphQL query.
    QueryVariable {
        /// The name that the value is looked up under.
        query_variable: String,
        /// Reserved: read from configuration where the rule allows it, never consulted.
        redact: Option<String>,
        /// What the rule resolves to where its source yields nothing.
        default: Option<AttributeValue>,
    },
    /// A header of the request.
    RequestHeader {
        /// The name that the value is looked up under.
        request_header: String,
        /// Reserved: read from configuration where the rule allows it, never consulted.
        redact: Option<String>,
        /// What the rule resolves to where its source yields nothing.
        default: Option<AttributeValue>,
    },
    /// A header of the response.
    ResponseHeader {
        /// The name that the value is looked up under.
        response_header: String,
        /// Reserved: read from configuration where the rule allows it, never consulted.
        redact: Option<String>,
        /// What the rule resolves to where its source yields nothing.
        default: Option<AttributeValue>,
    },
    /// An entry of the context, read when the request passes.
    RequestContext {
        /// The name that the value is looked up under.
        request_context: String,
        /// Reserved: read from configuration where the rule allows it, never consulted.
        redact: Option<String>,
        /// What the rule resolves to where its source yields nothing.
        default: Option<AttributeValue>,
    },
    /// An entry of the context, read when the response passes.
    ResponseContext {
        /// The name that the value is looked up under.
        response_context: String,
        /// Reserved: read from configuration where the rule allows it, never consulted.
        redact: Option<String>,
        /// What the rule resolves to where its source yields nothing.
        default: Option<AttributeValue>,
    },
    /// An item of the baggage.
    Baggage {
        /// The name that the value is looked up under.
        baggage: String,
        /// Reserved: read from configuration where the rule allows it, never consulted.
        redact: Option<String>,
        /// What the rule resolves to where its source yields nothing.
        default: Option<AttributeValue>,
    },
    /// An environment variable.
    Env {
        /// The name of the variable.
        env: String,
        /// Reserved: read from configuration where the rule allows it, never consulted.
        redact: Option<String>,
        /// What the rule resolves to where its source yields nothing.
        default: Option<String>,
    },
}

impl CustomAttribute for SupergraphCustomAttribute {
    open spec fn accepts(value: Json) -> bool {
        value matches Json::Object(members) && {
            let m = members@;
            ||| chosen(m, "operation_name"@, true, false, OperationName::choices()) is Some
            ||| chosen(m, "operation_kind"@, false, false, OperationKind::choices()) is Some
            ||| chosen(m, "query"@, true, true, Query::choices()) is Some
            ||| value_rule(m, "query_variable"@)
            ||| value_rule(m, "request_header"@)
            ||| value_rule(m, "response_header"@)
            ||| value_rule(m, "request_context"@)
            ||| value_rule(m, "response_context"@)
            ||| value_rule(m, "baggage"@)
            ||| text_rule(m, "env"@, true, false)
        }
    }

    open spec fn parsed_from(&self, value: Json) -> bool {
        value matches Json::Object(members) && {
            let m = members@;
            if chosen(m, "operation_name"@, true, false, OperationName::choices()) is Some {
                *self matches SupergraphCustomAttribute::OperationName { operation_name: form, redact, default }
                    && chosen(m, "operation_name"@, true, false, OperationName::choices()) == Some(form) && redact is None
                    && text_of(default) == text_field(m, DEFAULT@)
            } else if chosen(m, "operation_kind"@, false, false, OperationKind::choices()) is Some {
                *self matches SupergraphCustomAttribute::OperationKind { operation_kind: form, redact }
                    && chosen(m, "operation_kind"@, false, false, OperationKind::choices()) == Some(form) && redact is None
            } else if chosen(m, "query"@, true, true, Query::choices()) is Some {
                *self matches SupergraphCustomAttribute::Query { query: form, redact, default }
                    && chosen(m, "query"@, true, true, Query::choices()) == Some(form) && text_of(redact)
                    == text_field(m, REDACT@) && text_of(default) == text_field(m, DEFAULT@)
            } else if value_rule(m, "query_variable"@) {
                *self matches SupergraphCustomAttribute::QueryVariable { query_variable: source, redact, default }
                    && text_field(m, "query_variable"@) == Some(source@) && redact is None && view_of(default)
                    == default_value(m)
            } else if value_rule(m, "request_header"@) {
                *self matches SupergraphCustomAttribute::RequestHeader { request_header: source, redact, default }
                    && text_field(m, "request_header"@) == Some(source@) && redact is None && view_of(default)
                    == default_value(m)
            } else if value_rule(m, "response_header"@) {
                *self matches SupergraphCustomAttribute::ResponseHeader { response_header: source, redact, default }
                    && text_field(m, "response_header"@) == Some(source@) && redact is None && view_of(default)
                    == default_value(m)
            } else if value_rule(m, "request_context"@) {
                *self matches SupergraphCustomAttribute::RequestContext { request_context: source, redact, default }
                    && text_field(m, "request_context"@) == Some(source@) && redact is None && view_of(default)
                    == default_value(m)
            } else if value_rule(m, "response_context"@) {
                *self matches SupergraphCustomAttribute::ResponseContext { response_context: source, redact, default }
                    && text_field(m, "response_context"@) == Some(source@) && redact is None && view_of(default)
                    == default_value(m)
            } else if value_rule(m, "baggage"@) {
                *self matches SupergraphCustomAttribute::Baggage { baggage: source, redact, default }
                    && text_field(m, "baggage"@) == Some(source@) && redact is None && view_of(default)
                    == default_value(m)
            } else if text_rule(m, "env"@, true, false) {
                *self matches SupergraphCustomAttribute::Env { env: source, redact, default }
                    && text_field(m, "env"@) == Some(source@) && redact is None && text_of(default)
                    == text_field(m, DEFAULT@)
            } else {
                false
            }
        }
    }

    fn parse(value: &Json) -> (rule: Option<SupergraphCustomAttribute>) {
        if let Json::Object(members) = value {
            if let Some((source, default, _)) = parse_text_rule(members, "operation_name", true, false) {
                if let Some(form) = OperationName::from_text(source.as_str()) {
                    return Some(SupergraphCustomAttribute::OperationName { operation_name: form, redact: None, default });
                }
            }
            if let Some((source, _, _)) = parse_text_rule(members, "operation_kind", false, false) {
                if let Some(form) = OperationKind::from_text(source.as_str()) {
                    return Some(SupergraphCustomAttribute::OperationKind { operation_kind: form, redact: None });
                }
            }
            if let Some((source, default, redact)) = parse_text_rule(members, "query", true, true) {
                if let Some(form) = Query::from_text(source.as_str()) {
                    return Some(SupergraphCustomAttribute::Query { query: form, redact, default });
                }
            }
            if let Some((source, default)) = parse_value_rule(members, "query_variable") {
                return Some(SupergraphCustomAttribute::QueryVariable { query_variable: source, redact: None, default });
            }
            if let Some((source, default)) = parse_value_rule(members, "request_header") {
                return Some(SupergraphCustomAttribute::RequestHeader { request_header: source, redact: None, default });
            }
            if let Some((source, default)) = parse_value_rule(members, "response_header") {
                return Some(SupergraphCustomAttribute::ResponseHeader { response_header: source, redact: None, default });
            }
            if let Some((source, default)) = parse_value_rule(members, "request_context") {
                return Some(SupergraphCustomAttribute::RequestContext { request_context: source, redact: None, default });
            }
            if let Some((source, default)) = parse_value_rule(members, "response_context") {
                return Some(SupergraphCustomAttribute::ResponseContext { response_context: source, redact: None, default });
            }
            if let Some((source, default)) = parse_value_rule(members, "baggage") {
                return Some(SupergraphCustomAttribute::Baggage { baggage: source, redact: None, default });
            }
            if let Some((source, default, _)) = parse_text_rule(members, "env", true, false) {
                return Some(SupergraphCustomAttribute::Env { env: source, redact: None, default });
            }
        }
        None
    }
}

/// A custom attribute of the downstream-service stage.
#[derive(Debug)]
#[allow(inconsistent_fields)]
pub enum SubgraphCustomAttribute {
    /// The name of the operation sent to the downstream service.
    SubgraphOperationName {
        /// The form in which the name is written.
        subgraph_operation_name: OperationName,
        /// Reserved: read from configuration where the rule allows it, never consulted.
        redact: Option<String>,
        /// What the rule resolves to where its source yields nothing.
        default: Option<String>,
    },
    /// The kind of the operation sent to the downstream service.
    SubgraphOperationKind {
        /// The form in which the kind is written.
        subgraph_operation_kind: OperationKind,
    },
    /// The GraphQL query sent to the downstream service. Reserved: no query is read yet, so the rule resolves to its default.
    SubgraphQuery {
        /// The form in which the query is written.
        subgraph_query: Query,
        /// Reserved: read from configuration where the rule allows it, never consulted.
        redact: Option<String>,
        /// What the rule resolves to where its source yields nothing.
        default: Option<String>,
    },
    /// A variable of the query sent to the downstream service.
    SubgraphQueryVariable {
        /// The name that the value is looked up under.
        subgraph_query_variable: String,
        /// Reserved: read from configuration where the rule allows it, never consulted.
        redact: Option<String>,
        /// What the rule resolves to where its source yields nothing.
        default: Option<AttributeValue>,
    },
    /// A path into the body of the downstream service's response.
    SubgraphResponseBody {
        /// The path that is followed into the body.
        subgraph_response_body: String,
        /// Reserved: read from configuration where the rule allows it, never consulted.
        redact: Option<String>,
        /// What the rule resolves to where its source yields nothing.
        default: Option<AttributeValue>,
    },
    /// A header of the request to the downstream service.
    SubgraphRequestHeader {
        /// The name that the value is looked up under.
        subgraph_request_header: String,
        /// Reserved: read from configuration where the rule allows it, never consulted.
        redact: Option<String>,
        /// What the rule resolves to where its source yields nothing.
        default: Option<AttributeValue>,
    },
    /// A header of the downstream service's response.
    SubgraphResponseHeader {
        /// The name that the value is looked up under.
        subgraph_response_header: String,
        /// Reserved: read from configuration where the rule allows it, never consulted.
        redact: Option<String>,
        /// What the rule resolves to where its source yields nothing.
        default: Option<AttributeValue>,
    },
    /// The name of the operation of the federated query.
    SupergraphOperationName {
        /// The form in which the name is written.
        supergraph_operation_name: OperationName,
        /// Reserved: read from configuration where the rule allows it, never consulted.
        redact: Option<String>,
        /// What the rule resolves to where its source yields nothing.
        default: Option<String>,
    },
    /// The kind of the operation of the federated query.
    SupergraphOperationKind {
        /// The form in which the kind is written.
        supergraph_operation_kind: OperationKind,
    },
    /// A variable of the federated query.
    SupergraphQueryVariable {
        /// The name that the value is looked up under.
        supergraph_query_variable: String,
        /// Reserved: read from configuration where the rule allows it, never consulted.
        redact: Option<String>,
        /// What the rule resolves to where its source yields nothing.
        default: Option<AttributeValue>,
    },
    /// A header of the federated query's request.
    SupergraphRequestHeader {
        /// The name that the value is looked up under.
        supergraph_request_header: String,
        /// Reserved: read from configuration where the rule allows it, never consulted.
        redact: Option<String>,
        /// What the rule resolves to where its source yields nothing.
        default: Option<AttributeValue>,
    },
    /// A header of the federated query's response. Reserved: that response is not at hand at this stage, so the rule resolves to its default.
    SupergraphResponseHeader {
        /// The name that the value is looked up under.
        supergraph_response_header: String,
        /// Reserved: read from configuration where the rule allows it, never consulted.
        redact: Option<String>,
        /// What the rule resolves to where its source yields nothing.
        default: Option<AttributeValue>,
    },
    /// An entry of the context, read when the request passes.
    RequestContext {
        /// The name that the value is looked up under.
        request_context: String,
        /// Reserved: read from configuration where the rule allows it, never consulted.
        redact: Option<String>,
        /// What the rule resolves to where its source yields nothing.
        default: Option<AttributeValue>,
    },
    /// An entry of the context, read when the response passes.
    ResponseContext {
        /// The name that the value is looked up under.
        response_context: String,
        /// Reserved: read from configuration where the rule allows it, never consulted.
        redact: Option<String>,
        /// What the rule resolves to where its source yields nothing.
        default: Option<AttributeValue>,
    },
    /// An item of the baggage.
    Baggage {
        /// The name that the value is looked up under.
        baggage: String,
        /// Reserved: read from configuration where the rule allows it, never consulted.
        redact: Option<String>,
        /// What the rule resolves to where its source yields nothing.
        default: Option<AttributeValue>,
    },
    /// An environment variable.
    Env {
        /// The name of the variable.
        env: String,
        /// Reserved: read from configuration where the rule allows it, never consulted.
        redact: Option<String>,
        /// What the rule resolves to where its source yields nothing.
        default: Option<String>,
    },
}

impl CustomAttribute for SubgraphCustomAttribute {
    open spec fn accepts(value: Json) -> bool {
        value matches Json::Object(members) && {
            let m = members@;
            ||| chosen(m, "subgraph_operation_name"@, true, false, OperationName::choices()) is Some
            ||| chosen(m, "subgraph_operation_kind"@, false, false, OperationKind::choices()) is Some
            ||| chosen(m, "subgraph_query"@, true, true, Query::choices()) is Some
            ||| value_rule(m, "subgraph_query_variable"@)
            ||| (value_rule(m, "subgraph_response_body"@) && valid_body_path(text_field(m, "subgraph_response_body"@).unwrap(), usize::MAX as int))
            ||| value_rule(m, "subgraph_request_header"@)
            ||| value_rule(m, "subgraph_response_header"@)
            ||| chosen(m, "supergraph_operation_name"@, true, false, OperationName::choices()) is Some
            ||| chosen(m, "supergraph_operation_kind"@, false, false, OperationKind::choices()) is Some
            ||| value_rule(m, "supergraph_query_variable"@)
            ||| value_rule(m, "supergraph_request_header"@)
            ||| value_rule(m, "supergraph_response_header"@)
            ||| value_rule(m, "request_context"@)
            ||| value_rule(m, "response_context"@)
            ||| value_rule(m, "baggage"@)
            ||| text_rule(m, "env"@, true, false)
        }
    }

    open spec fn parsed_from(&self, value: Json) -> bool {
        value matches Json::Object(members) && {
            let m = members@;
            if chosen(m, "subgraph_operation_name"@, true, false, OperationName::choices()) is Some {
                *self matches SubgraphCustomAttribute::SubgraphOperationName { subgraph_operation_name: form, redact, default }
                    && chosen(m, "subgraph_operation_name"@, true, false, OperationName::choices()) == Some(form) && redact is None
                    && text_of(default) == text_field(m, DEFAULT@)
            } else if chosen(m, "subgraph_operation_kind"@, false, false, OperationKind::choices()) is Some {
                *self matches SubgraphCustomAttribute::SubgraphOperationKind { subgraph_operation_kind: form }
                    && chosen(m, "subgraph_operation_kind"@, false, false, OperationKind::choices()) == Some(form)
            } else if chosen(m, "subgraph_query"@, true, true, Query::choices()) is Some {
                *self matches SubgraphCustomAttribute::SubgraphQuery { subgraph_query: form, redact, default }
                    && chosen(m, "subgraph_query"@, true, true, Query::choices()) == Some(form) && text_of(redact)
                    == text_field(m, REDACT@) && text_of(default) == text_field(m, DEFAULT@)
            } else if value_rule(m, "subgraph_query_variable"@) {
                *self matches SubgraphCustomAttribute::SubgraphQueryVariable { subgraph_query_variable: source, redact, default }
                    && text_field(m, "subgraph_query_variable"@) == Some(source@) && redact is None && view_of(default)
                    == default_value(m)
            } else if (value_rule(m, "subgraph_response_body"@) && valid_body_path(text_field(m, "subgraph_response_body"@).unwrap(), usize::MAX as int)) {
                *self matches SubgraphCustomAttribute::SubgraphResponseBody { subgraph_response_body: source, redact, default }
                    && text_field(m, "subgraph_response_body"@) == Some(source@) && redact is None && view_of(default)
                    == default_value(m)
            } else if value_rule(m, "subgraph_request_header"@) {
                *self matches SubgraphCustomAttribute::SubgraphRequestHeader { subgraph_request_header: source, redact, default }
                    && text_field(m, "subgraph_request_header"@) == Some(source@) && redact is None && view_of(default)
                    == default_value(m)
            } else if value_rule(m, "subgraph_response_header"@) {
                *self matches SubgraphCustomAttribute::SubgraphResponseHeader { subgraph_response_header: source, redact, default }
                    && text_field(m, "subgraph_response_header"@) == Some(source@) && redact is None && view_of(default)
                    == default_value(m)
            } else if chosen(m, "supergraph_operation_name"@, true, false, OperationName::choices()) is Some {
                *self matches SubgraphCustomAttribute::SupergraphOperationName { supergraph_operation_name: form, redact, default }
                    && chosen(m, "supergraph_operation_name"@, true, false, OperationName::choices()) == Some(form) && redact is None
                    && text_of(default) == text_field(m, DEFAULT@)
            } else if chosen(m, "supergraph_operation_kind"@, false, false, OperationKind::choices()) is Some {
                *self matches SubgraphCustomAttribute::SupergraphOperationKind { supergraph_operation_kind: form }
                    && chosen(m, "supergraph_operation_kind"@, false, false, OperationKind::choices()) == Some(form)
            } else if value_rule(m, "supergraph_query_variable"@) {
                *self matches SubgraphCustomAttribute::SupergraphQueryVariable { supergraph_query_variable: source, redact, default }
                    && text_field(m, "supergraph_query_variable"@) == Some(source@) && redact is None && view_of(default)
                    == default_value(m)
            } else if value_rule(m, "supergraph_request_header"@) {
                *self matches SubgraphCustomAttribute::SupergraphRequestHeader { supergraph_request_header: source, redact, default }
                    && text_field(m, "supergraph_request_header"@) == Some(source@) && redact is None && view_of(default)
                    == default_value(m)
            } else if value_rule(m, "supergraph_response_header"@) {
                *self matches SubgraphCustomAttribute::SupergraphResponseHeader { supergraph_response_header: source, redact, default }
                    && text_field(m, "supergraph_response_header"@) == Some(source@) && redact is None && view_of(default)
                    == default_value(m)
            } else if value_rule(m, "request_context"@) {
                *self matches SubgraphCustomAttribute::RequestContext { request_context: source, redact, default }
                    && text_field(m, "request_context"@) == Some(source@) && redact is None && view_of(default)
                    == default_value(m)
            } else if value_rule(m, "response_context"@) {
                *self matches SubgraphCustomAttribute::ResponseContext { response_context: source, redact, default }
                    && text_field(m, "response_context"@) == Some(source@) && redact is None && view_of(default)
                    == default_value(m)
            } else if value_rule(m, "baggage"@) {
                *self matches SubgraphCustomAttribute::Baggage { baggage: source, redact, default }
                    && text_field(m, "baggage"@) == Some(source@) && redact is None && view_of(default)
                    == default_value(m)
            } else if text_rule(m, "env"@, true, false) {
                *self matches SubgraphCustomAttribute::Env { env: source, redact, default }
                    && text_field(m, "env"@) == Some(source@) && redact is None && text_of(default)
                    == text_field(m, DEFAULT@)
            } else {
                false
            }
        }
    }

    fn parse(value: &Json) -> (rule: Option<SubgraphCustomAttribute>) {
        if let Json::Object(members) = value {
            if let Some((source, default, _)) = parse_text_rule(members, "subgraph_operation_name", true, false) {
                if let Some(form) = OperationName::from_text(source.as_str()) {
                    return Some(SubgraphCustomAttribute::SubgraphOperationName { subgraph_operation_name: form, redact: None, default });
                }
            }
            if let Some((source, _, _)) = parse_text_rule(members, "subgraph_operation_kind", false, false) {
                if let Some(form) = OperationKind::from_text(source.as_str()) {
                    return Some(SubgraphCustomAttribute::SubgraphOperationKind { subgraph_operation_kind: form });
                }
            }
            if let Some((source, default, redact)) = parse_text_rule(members, "subgraph_query", true, true) {
                if let Some(form) = Query::from_text(source.as_str()) {
                    return Some(SubgraphCustomAttribute::SubgraphQuery { subgraph_query: form, redact, default });
                }
            }
            if let Some((source, default)) = parse_value_rule(members, "subgraph_query_variable") {
                return Some(SubgraphCustomAttribute::SubgraphQueryVariable { subgraph_query_variable: source, redact: None, default });
            }
            if let Some((source, default)) = parse_value_rule(members, "subgraph_response_body") {
                if body_path_is_valid(source.as_str()) {
                    return Some(SubgraphCustomAttribute::SubgraphResponseBody { subgraph_response_body: source, redact: None, default });
                }
            }
            if let Some((source, default)) = parse_value_rule(members, "subgraph_request_header") {
                return Some(SubgraphCustomAttribute::SubgraphRequestHeader { subgraph_request_header: source, redact: None, default });
            }
            if let Some((source, default)) = parse_value_rule(members, "subgraph_response_header") {
                return Some(SubgraphCustomAttribute::SubgraphResponseHeader { subgraph_response_header: source, redact: None, default });
            }
            if let Some((source, default, _)) = parse_text_rule(members, "supergraph_operation_name", true, false) {
                if let Some(form) = OperationName::from_text(source.as_str()) {
                    return Some(SubgraphCustomAttribute::SupergraphOperationName { supergraph_operation_name: form, redact: None, default });
                }
            }
            if let Some((source, _, _)) = parse_text_rule(members, "supergraph_operation_kind", false, false) {
                if let Some(form) = OperationKind::from_text(source.as_str()) {
                    return Some(SubgraphCustomAttribute::SupergraphOperationKind { supergraph_operation_kind: form });
                }
            }
            if let Some((source, default)) = parse_value_rule(members, "supergraph_query_variable") {
                return Some(SubgraphCustomAttribute::SupergraphQueryVariable { supergraph_query_variable: source, redact: None, default });
            }
            if let Some((source, default)) = parse_value_rule(members, "supergraph_request_header") {
                return Some(SubgraphCustomAttribute::SupergraphRequestHeader { supergraph_request_header: source, redact: None, default });
            }
            if let Some((source, default)) = parse_value_rule(members, "supergraph_response_header") {
                return Some(SubgraphCustomAttribute::SupergraphResponseHeader { supergraph_response_header: source, redact: None, default });
            }
            if let Some((source, default)) = parse_value_rule(members, "request_context") {
                return Some(SubgraphCustomAttribute::RequestContext { request_context: source, redact: None, default });
            }
            if let Some((source, default)) = parse_value_rule(members, "response_context") {
                return Some(SubgraphCustomAttribute::ResponseContext { response_context: source, redact: None, default });
            }
            if let Some((source, default)) = parse_value_rule(members, "baggage") {
                return Some(SubgraphCustomAttribute::Baggage { baggage: source, redact: None, default });
            }
            if let Some((source, default, _)) = parse_text_rule(members, "env", true, false) {
                return Some(SubgraphCustomAttribute::Env { env: source, redact: None, default });
            }
        }
        None
    }
}

} // verus!
