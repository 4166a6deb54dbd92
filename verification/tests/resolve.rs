use http::{HeaderMap, HeaderValue};
use telemetry_attributes::attributes::{
    HttpCommonAttributes, HttpServerAttributes, RouterAttributes,
};
use telemetry_attributes::custom::{read_body, trace_id_attribute};
use telemetry_attributes::events::{
    read_header, Ambient, Baggage, BaggageItem, BaggageValue, Entries, GraphqlRequest,
    HttpVersion, OperationType, RouterRequest, RouterResponse, StageError, SubgraphRequest,
    SubgraphResponse, SupergraphRequest, SupergraphResponse, UriParts,
};
use telemetry_attributes::extendable::{CustomEntry, Extendable};
use telemetry_attributes::json::{Json, JsonNumber, Member};
use telemetry_attributes::protocol::{GetAttribute, GetAttributes};
use telemetry_attributes::resolved::Attributes;
use telemetry_attributes::rules::{
    OperationKind, OperationName, Query, RouterCustomAttribute, SubgraphCustomAttribute,
    SupergraphCustomAttribute, TraceIdFormat,
};
use telemetry_attributes::value::AttributeValue;

fn entries(pairs: Vec<(&str, Json)>) -> Entries {
    Entries {
        entries: pairs
            .into_iter()
            .map(|(name, value)| Member { name: name.to_string(), value })
            .collect(),
    }
}

fn text(s: &str) -> Json {
    Json::String(s.to_string())
}

fn baggage(pairs: Vec<(&str, BaggageValue)>) -> Baggage {
    Baggage {
        items: pairs
            .into_iter()
            .map(|(key, value)| BaggageItem { key: key.to_string(), value })
            .collect(),
    }
}

fn ambient() -> Ambient {
    Ambient {
        trace_id: Some(0xff),
        baggage: baggage(vec![
            ("tenant", BaggageValue::String("acme".to_string())),
            ("retries", BaggageValue::I64(3)),
            ("tenant", BaggageValue::String("later".to_string())),
            ("sampled", BaggageValue::Bool(true)),
            ("ratio", BaggageValue::Double { bits: 0.25f64.to_bits() }),
            ("hops", BaggageValue::Array(opentelemetry_api::Array::I64(vec![1, 2]))),
        ]),
        environment: entries(vec![("REGION", text("eu")), ("ODD", Json::Bool(true))]),
    }
}

fn no_ambient() -> Ambient {
    Ambient { trace_id: None, baggage: baggage(vec![]), environment: entries(vec![]) }
}

fn headers(pairs: Vec<(&'static str, &[u8])>) -> HeaderMap {
    let mut map = HeaderMap::new();
    for (name, value) in pairs {
        map.append(name, HeaderValue::from_bytes(value).unwrap());
    }
    map
}

fn uri() -> UriParts {
    UriParts {
        text: "https://example.com:8443/graphql?a=b".to_string(),
        scheme: Some("https".to_string()),
        host: Some("example.com".to_string()),
        port: Some(8443),
        path: "/graphql".to_string(),
        query: Some("a=b".to_string()),
    }
}

fn router_request() -> RouterRequest {
    RouterRequest {
        headers: headers(vec![
            ("x-tenant", b"acme"),
            ("x-tenant", b"other"),
            ("content-length", b"42"),
            ("user-agent", b"curl/8"),
            ("x-bin", &[0xff, 0xfe]),
        ]),
        uri: uri(),
        version: HttpVersion::Http11,
        context: entries(vec![("seen", Json::Bool(true))]),
        ambient: ambient(),
    }
}

fn router_response() -> RouterResponse {
    RouterResponse {
        headers: headers(vec![("content-length", b"7"), ("x-cache", b"hit")]),
        status: 200,
        context: entries(vec![("cost", Json::Number(JsonNumber::Signed(-2))), ("list", Json::Array(vec![]))]),
        ambient: ambient(),
    }
}

fn string(value: Option<AttributeValue>) -> Option<String> {
    match value {
        Some(AttributeValue::String(s)) => Some(s),
        Some(other) => panic!("not a text: {:?}", other),
        None => None,
    }
}

fn default_text(s: &str) -> Option<AttributeValue> {
    Some(AttributeValue::String(s.to_string()))
}

fn get_text(attributes: &Attributes, key: &str) -> Option<String> {
    match attributes.get(key) {
        Some(AttributeValue::String(s)) => Some(s.clone()),
        Some(other) => panic!("not a text: {:?}", other),
        None => None,
    }
}

#[test]
fn a_header_is_found_whatever_the_case_of_its_name() {
    let request = router_request();
    assert_eq!(read_header(&request.headers, "x-tenant"), Some("acme".to_string()));
    assert_eq!(read_header(&request.headers, "X-Tenant"), Some("acme".to_string()));
    assert_eq!(read_header(&request.headers, "x-missing"), None);
    assert_eq!(read_header(&request.headers, "not a name"), None);
    assert_eq!(read_header(&request.headers, ""), None);
    assert_eq!(read_header(&request.headers, "x-bin"), None);
}

#[test]
fn request_header_rule_falls_back_in_order() {
    let request = router_request();
    let rule = |name: &str, default: Option<AttributeValue>| RouterCustomAttribute::RequestHeader {
        request_header: name.to_string(),
        redact: None,
        default,
    };
    assert_eq!(string(rule("x-tenant", default_text("d")).on_request(&request)), Some("acme".to_string()));
    assert_eq!(string(rule("x-none", default_text("d")).on_request(&request)), Some("d".to_string()));
    assert_eq!(string(rule("x-bin", default_text("d")).on_request(&request)), Some("d".to_string()));
    assert!(rule("x-none", None).on_request(&request).is_none());
    assert!(matches!(
        rule("x-none", Some(AttributeValue::I64(9))).on_request(&request),
        Some(AttributeValue::I64(9))
    ));
}

#[test]
fn rules_of_the_other_stage_resolve_to_nothing() {
    let request = router_request();
    let response = router_response();
    let response_header = RouterCustomAttribute::ResponseHeader {
        response_header: "x-tenant".to_string(),
        redact: None,
        default: default_text("d"),
    };
    assert!(response_header.on_request(&request).is_none());
    let request_header = RouterCustomAttribute::RequestHeader {
        request_header: "x-cache".to_string(),
        redact: None,
        default: default_text("d"),
    };
    assert!(request_header.on_response(&response).is_none());
    assert_eq!(string(request_header.on_request(&request)), Some("d".to_string()));
    let context = RouterCustomAttribute::ResponseContext {
        response_context: "seen".to_string(),
        redact: None,
        default: default_text("d"),
    };
    assert!(context.on_request(&request).is_none());
    let env = RouterCustomAttribute::Env {
        env: "REGION".to_string(),
        redact: None,
        default: Some("d".to_string()),
    };
    assert!(env.on_response(&response).is_none());
    let trace = RouterCustomAttribute::TraceId { trace_id: TraceIdFormat::Datadog };
    assert!(trace.on_response(&response).is_none());
}

#[test]
fn router_rules_on_request() {
    let request = router_request();
    let env = |name: &str, default: Option<&str>| RouterCustomAttribute::Env {
        env: name.to_string(),
        redact: None,
        default: default.map(|d| d.to_string()),
    };
    assert_eq!(string(env("REGION", Some("d")).on_request(&request)), Some("eu".to_string()));
    assert_eq!(string(env("UNSET", Some("d")).on_request(&request)), Some("d".to_string()));
    assert_eq!(string(env("ODD", Some("d")).on_request(&request)), Some("d".to_string()));
    assert!(env("UNSET", None).on_request(&request).is_none());
    let baggage = |name: &str, default: Option<AttributeValue>| RouterCustomAttribute::Baggage {
        baggage: name.to_string(),
        redact: None,
        default,
    };
    assert_eq!(string(baggage("tenant", None).on_request(&request)), Some("acme".to_string()));
    assert!(matches!(baggage("retries", None).on_request(&request), Some(AttributeValue::I64(3))));
    assert!(matches!(
        baggage("none", Some(AttributeValue::Bool(true))).on_request(&request),
        Some(AttributeValue::Bool(true))
    ));
    assert!(baggage("none", None).on_request(&request).is_none());
    assert!(matches!(baggage("sampled", None).on_request(&request), Some(AttributeValue::Bool(true))));
    assert!(matches!(
        baggage("ratio", None).on_request(&request),
        Some(AttributeValue::Double { bits }) if f64::from_bits(bits) == 0.25
    ));
    assert!(baggage("hops", None).on_request(&request).is_none());
    assert_eq!(string(baggage("hops", default_text("d")).on_request(&request)), Some("d".to_string()));
}

#[test]
fn trace_id_in_both_forms() {
    let request = router_request();
    let hex = RouterCustomAttribute::TraceId { trace_id: TraceIdFormat::OpenTelemetry };
    assert_eq!(
        string(hex.on_request(&request)),
        Some("000000000000000000000000000000ff".to_string())
    );
    let number = RouterCustomAttribute::TraceId { trace_id: TraceIdFormat::Datadog };
    assert!(matches!(number.on_request(&request), Some(AttributeValue::U128(255))));
    assert!(trace_id_attribute(&no_ambient(), &TraceIdFormat::OpenTelemetry).is_none());
    assert!(trace_id_attribute(&no_ambient(), &TraceIdFormat::Datadog).is_none());
    let big = Ambient { trace_id: Some(u128::MAX), ..no_ambient() };
    assert!(matches!(
        trace_id_attribute(&big, &TraceIdFormat::Datadog),
        Some(AttributeValue::U128(u128::MAX))
    ));
}

#[test]
fn router_rules_on_response() {
    let response = router_response();
    let header = RouterCustomAttribute::ResponseHeader {
        response_header: "X-Cache".to_string(),
        redact: None,
        default: None,
    };
    assert_eq!(string(header.on_response(&response)), Some("hit".to_string()));
    let context = |key: &str, default: Option<AttributeValue>| RouterCustomAttribute::ResponseContext {
        response_context: key.to_string(),
        redact: None,
        default,
    };
    assert!(matches!(context("cost", None).on_response(&response), Some(AttributeValue::I64(-2))));
    assert!(matches!(
        context("list", Some(AttributeValue::I64(0))).on_response(&response),
        Some(AttributeValue::I64(0))
    ));
    assert!(context("list", None).on_response(&response).is_none());
    assert!(context("none", None).on_response(&response).is_none());
    let baggage = RouterCustomAttribute::Baggage {
        baggage: "tenant".to_string(),
        redact: None,
        default: None,
    };
    assert_eq!(string(baggage.on_response(&response)), Some("acme".to_string()));
}

#[test]
fn common_attributes_on_request() {
    let request = router_request();
    let blank = HttpCommonAttributes::default();
    assert!(blank.on_request(&request).entries.is_empty());
    let mut set = HttpCommonAttributes::default();
    set.http_request_body_size = Some(true);
    set.network_protocol_name = Some(true);
    set.network_protocol_version = Some(true);
    set.network_transport = Some(true);
    set.user_agent_original = Some(true);
    set.http_request_method = Some(true);
    let attrs = set.on_request(&request);
    assert_eq!(attrs.entries.len(), 5);
    assert_eq!(get_text(&attrs, "http.request.body.size"), Some("42".to_string()));
    assert_eq!(get_text(&attrs, "network.protocol.name"), Some("http".to_string()));
    assert_eq!(get_text(&attrs, "network.protocol.version"), Some("HTTP/1.1".to_string()));
    assert_eq!(get_text(&attrs, "network.transport"), Some("tcp".to_string()));
    assert_eq!(get_text(&attrs, "user_agent.original"), Some("curl/8".to_string()));
    assert!(attrs.get("http.request.method").is_none());
    set.network_transport = Some(false);
    set.user_agent_original = None;
    let attrs = set.on_request(&request);
    assert!(attrs.get("network.transport").is_none());
    assert!(attrs.get("user_agent.original").is_none());
    assert_eq!(attrs.entries.len(), 3);
    let mut bare = router_request();
    bare.headers = HeaderMap::new();
    let attrs = set.on_request(&bare);
    assert!(attrs.get("http.request.body.size").is_none());
    assert_eq!(attrs.entries.len(), 2);
}

#[test]
fn common_attributes_on_response_and_error() {
    let response = router_response();
    let mut set = HttpCommonAttributes::default();
    set.http_response_body_size = Some(true);
    set.http_response_status_code = Some(true);
    set.error_type = Some(true);
    let attrs = set.on_response(&response);
    assert_eq!(get_text(&attrs, "http.response.body.size"), Some("7".to_string()));
    assert_eq!(get_text(&attrs, "http.response.status_code"), Some("200 OK".to_string()));
    assert!(attrs.get("error.type").is_none());
    let mut missing = router_response();
    missing.status = 404;
    assert_eq!(
        get_text(&set.on_response(&missing), "http.response.status_code"),
        Some("404 Not Found".to_string())
    );
    missing.status = 799;
    assert_eq!(
        get_text(&set.on_response(&missing), "http.response.status_code"),
        Some("799 <unknown status code>".to_string())
    );
    missing.status = 42;
    assert!(set.on_response(&missing).get("http.response.status_code").is_none());
    let error = StageError { message: "boom".to_string() };
    let attrs = set.on_error(&error);
    assert!(matches!(attrs.get("error.type"), Some(AttributeValue::I64(500))));
    assert_eq!(attrs.entries.len(), 1);
    set.error_type = Some(false);
    assert!(set.on_error(&error).entries.is_empty());
    set.error_type = None;
    assert!(set.on_error(&error).entries.is_empty());
}

#[test]
fn server_attributes_on_request() {
    let request = router_request();
    let mut set = HttpServerAttributes::default();
    assert!(set.on_request(&request).entries.is_empty());
    set.http_route = Some(true);
    set.server_address = Some(true);
    set.server_port = Some(true);
    set.url_path = Some(true);
    set.url_query = Some(true);
    set.url_scheme = Some(true);
    let attrs = set.on_request(&request);
    assert_eq!(get_text(&attrs, "http.route"), Some("https://example.com:8443/graphql?a=b".to_string()));
    assert_eq!(get_text(&attrs, "server.address"), Some("example.com".to_string()));
    assert_eq!(get_text(&attrs, "server.port"), Some("8443".to_string()));
    assert_eq!(get_text(&attrs, "url.path"), Some("/graphql".to_string()));
    assert_eq!(get_text(&attrs, "url.query"), Some("a=b".to_string()));
    assert_eq!(get_text(&attrs, "url.scheme"), Some("https".to_string()));
    let mut relative = router_request();
    relative.uri = UriParts {
        text: "/".to_string(),
        scheme: None,
        host: None,
        port: None,
        path: "/".to_string(),
        query: None,
    };
    let attrs = set.on_request(&relative);
    assert_eq!(attrs.entries.len(), 2);
    assert_eq!(get_text(&attrs, "http.route"), Some("/".to_string()));
    assert_eq!(get_text(&attrs, "url.path"), Some("/".to_string()));
    assert!(set.on_response(&router_response()).entries.is_empty());
    assert!(set.on_error(&StageError { message: String::new() }).entries.is_empty());
}

#[test]
fn router_attributes_resolve_the_common_part() {
    let request = router_request();
    let mut set = RouterAttributes::default();
    set.common.network_transport = Some(true);
    set.server.url_path = Some(true);
    let attrs = set.on_request(&request);
    assert_eq!(get_text(&attrs, "network.transport"), Some("tcp".to_string()));
    assert!(attrs.get("url.path").is_none());
    set.common.http_response_status_code = Some(true);
    assert_eq!(
        get_text(&set.on_response(&router_response()), "http.response.status_code"),
        Some("200 OK".to_string())
    );
    set.common.error_type = Some(true);
    let error = StageError { message: "x".to_string() };
    assert!(matches!(set.on_error(&error).get("error.type"), Some(AttributeValue::I64(500))));
}

fn router_schema() -> Extendable<RouterAttributes, RouterCustomAttribute> {
    let mut attributes = RouterAttributes::default();
    attributes.common.network_transport = Some(true);
    attributes.common.error_type = Some(true);
    attributes.common.http_response_status_code = Some(true);
    let rule = |key: &str, rule: RouterCustomAttribute| CustomEntry { key: key.to_string(), rule };
    Extendable {
        attributes,
        custom: vec![
            rule(
                "tenant",
                RouterCustomAttribute::RequestHeader {
                    request_header: "x-tenant".to_string(),
                    redact: None,
                    default: None,
                },
            ),
            rule(
                "absent",
                RouterCustomAttribute::RequestHeader {
                    request_header: "x-absent".to_string(),
                    redact: None,
                    default: None,
                },
            ),
            rule(
                "cache",
                RouterCustomAttribute::ResponseHeader {
                    response_header: "x-cache".to_string(),
                    redact: None,
                    default: default_text("miss"),
                },
            ),
            rule(
                "network.transport",
                RouterCustomAttribute::Env {
                    env: "REGION".to_string(),
                    redact: None,
                    default: None,
                },
            ),
        ],
    }
}

#[test]
fn a_stage_resolves_typed_and_custom_attributes() {
    let schema = router_schema();
    let attrs = schema.on_request(&router_request());
    assert_eq!(get_text(&attrs, "tenant"), Some("acme".to_string()));
    assert!(attrs.get("absent").is_none());
    assert!(attrs.get("cache").is_none());
    assert_eq!(get_text(&attrs, "network.transport"), Some("eu".to_string()));
    assert!(attrs.get("error.type").is_none());
    let attrs = schema.on_response(&router_response());
    assert_eq!(get_text(&attrs, "cache"), Some("hit".to_string()));
    assert_eq!(get_text(&attrs, "http.response.status_code"), Some("200 OK".to_string()));
    assert!(attrs.get("tenant").is_none());
    assert!(attrs.get("network.transport").is_none());
    let mut plain = router_response();
    plain.headers = HeaderMap::new();
    assert_eq!(get_text(&schema.on_response(&plain), "cache"), Some("miss".to_string()));
}

#[test]
fn on_error_only_the_typed_set_resolves() {
    let schema = router_schema();
    let attrs = schema.on_error(&StageError { message: "failed".to_string() });
    assert_eq!(attrs.entries.len(), 1);
    assert!(matches!(attrs.get("error.type"), Some(AttributeValue::I64(500))));
    assert!(attrs.get("tenant").is_none());
    assert!(attrs.get("cache").is_none());
}

#[test]
fn the_last_value_under_a_key_counts() {
    let mut attrs = Attributes::new();
    assert!(attrs.get("a").is_none());
    attrs.insert("a".to_string(), AttributeValue::I64(1));
    attrs.insert("b".to_string(), AttributeValue::I64(2));
    attrs.insert("a".to_string(), AttributeValue::I64(3));
    assert!(matches!(attrs.get("a"), Some(AttributeValue::I64(3))));
    assert!(matches!(attrs.get("b"), Some(AttributeValue::I64(2))));
    assert!(attrs.get("c").is_none());
}

fn variables(json: &str) -> serde_json_bytes::Map<serde_json_bytes::ByteString, serde_json_bytes::Value> {
    match serde_json::from_str::<serde_json_bytes::Value>(json).unwrap() {
        serde_json_bytes::Value::Object(map) => map,
        _ => panic!("not an object"),
    }
}

fn supergraph_request() -> SupergraphRequest {
    SupergraphRequest {
        headers: headers(vec![("x-client", b"web")]),
        body: GraphqlRequest {
            operation_name: Some("Books".to_string()),
            variables: variables(r#"{"id": 7, "name": "a\"b", "filter": {"x": [1, true, null]}}"#),
        },
        context: entries(vec![
            ("operation_name", text("Books")),
            ("operation_kind", text("query")),
            ("user", text("u1")),
        ]),
        ambient: ambient(),
    }
}

#[test]
fn supergraph_rules_on_request() {
    let request = supergraph_request();
    let name = |form: OperationName, default: Option<&str>| SupergraphCustomAttribute::OperationName {
        operation_name: form,
        redact: None,
        default: default.map(|d| d.to_string()),
    };
    assert_eq!(string(name(OperationName::String, Some("d")).on_request(&request)), Some("Books".to_string()));
    assert_eq!(string(name(OperationName::Hash, Some("d")).on_request(&request)), Some("d".to_string()));
    assert!(name(OperationName::Hash, None).on_request(&request).is_none());
    let mut anonymous = supergraph_request();
    anonymous.context = entries(vec![]);
    assert_eq!(string(name(OperationName::String, Some("d")).on_request(&anonymous)), Some("d".to_string()));
    assert!(name(OperationName::String, None).on_request(&anonymous).is_none());
    let kind = SupergraphCustomAttribute::OperationKind {
        operation_kind: OperationKind::String,
        redact: None,
    };
    assert_eq!(string(kind.on_request(&request)), Some("query".to_string()));
    assert!(kind.on_request(&anonymous).is_none());
    let variable = |v: &str, default: Option<AttributeValue>| SupergraphCustomAttribute::QueryVariable {
        query_variable: v.to_string(),
        redact: None,
        default,
    };
    assert_eq!(string(variable("id", None).on_request(&request)), Some("7".to_string()));
    assert_eq!(string(variable("name", None).on_request(&request)), Some(r#""a\"b""#.to_string()));
    assert_eq!(
        string(variable("filter", None).on_request(&request)),
        Some(r#"{"x":[1,true,null]}"#.to_string())
    );
    assert_eq!(string(variable("none", default_text("d")).on_request(&request)), Some("d".to_string()));
    assert!(variable("none", None).on_request(&request).is_none());
    let context = SupergraphCustomAttribute::RequestContext {
        request_context: "user".to_string(),
        redact: None,
        default: None,
    };
    assert_eq!(string(context.on_request(&request)), Some("u1".to_string()));
    let header = SupergraphCustomAttribute::RequestHeader {
        request_header: "x-client".to_string(),
        redact: None,
        default: None,
    };
    assert_eq!(string(header.on_request(&request)), Some("web".to_string()));
    let baggage = SupergraphCustomAttribute::Baggage {
        baggage: "tenant".to_string(),
        redact: None,
        default: None,
    };
    assert_eq!(string(baggage.on_request(&request)), Some("acme".to_string()));
    let env = SupergraphCustomAttribute::Env {
        env: "REGION".to_string(),
        redact: None,
        default: None,
    };
    assert_eq!(string(env.on_request(&request)), Some("eu".to_string()));
    let query = |default: Option<&str>| SupergraphCustomAttribute::Query {
        query: Query::String,
        redact: Some("r".to_string()),
        default: default.map(|d| d.to_string()),
    };
    assert_eq!(string(query(Some("dflt")).on_request(&request)), Some("dflt".to_string()));
    assert!(query(None).on_request(&request).is_none());
}

#[test]
fn supergraph_rules_on_response() {
    let response = SupergraphResponse {
        headers: headers(vec![("x-cache", b"hit")]),
        context: entries(vec![("cost", Json::Number(JsonNumber::Unsigned(12)))]),
    };
    let header = SupergraphCustomAttribute::ResponseHeader {
        response_header: "x-cache".to_string(),
        redact: None,
        default: None,
    };
    assert_eq!(string(header.on_response(&response)), Some("hit".to_string()));
    assert!(header.on_request(&supergraph_request()).is_none());
    let context = SupergraphCustomAttribute::ResponseContext {
        response_context: "cost".to_string(),
        redact: None,
        default: None,
    };
    assert!(matches!(context.on_response(&response), Some(AttributeValue::I64(12))));
    let request_header = SupergraphCustomAttribute::RequestHeader {
        request_header: "x-cache".to_string(),
        redact: None,
        default: default_text("d"),
    };
    assert!(request_header.on_response(&response).is_none());
    let variable = SupergraphCustomAttribute::QueryVariable {
        query_variable: "id".to_string(),
        redact: None,
        default: default_text("d"),
    };
    assert!(variable.on_response(&response).is_none());
    let query = SupergraphCustomAttribute::Query {
        query: Query::String,
        redact: None,
        default: Some("d".to_string()),
    };
    assert!(query.on_response(&response).is_none());
}

fn subgraph_request() -> SubgraphRequest {
    SubgraphRequest {
        supergraph_headers: headers(vec![("x-client", b"web")]),
        supergraph_body: GraphqlRequest {
            operation_name: Some("Books".to_string()),
            variables: variables(r#"{"id": 7}"#),
        },
        subgraph_headers: headers(vec![("x-hop", b"2")]),
        subgraph_body: GraphqlRequest {
            operation_name: Some("Books__products__0".to_string()),
            variables: variables(r#"{"ids": ["a", "b"]}"#),
        },
        operation_kind: OperationType::Mutation,
        context: entries(vec![("operation_name", text("Books")), ("operation_kind", text("query"))]),
        ambient: ambient(),
    }
}

#[test]
fn subgraph_rules_on_request() {
    let request = subgraph_request();
    let on = |rule: SubgraphCustomAttribute| string(rule.on_request(&request));
    assert_eq!(
        on(SubgraphCustomAttribute::SubgraphOperationName {
            subgraph_operation_name: OperationName::String,
            redact: None,
            default: None,
        }),
        Some("Books__products__0".to_string())
    );
    assert_eq!(
        on(SubgraphCustomAttribute::SubgraphOperationName {
            subgraph_operation_name: OperationName::Hash,
            redact: None,
            default: Some("d".to_string()),
        }),
        Some("d".to_string())
    );
    assert_eq!(
        on(SubgraphCustomAttribute::SupergraphOperationName {
            supergraph_operation_name: OperationName::String,
            redact: None,
            default: None,
        }),
        Some("Books".to_string())
    );
    assert_eq!(
        on(SubgraphCustomAttribute::SubgraphOperationKind {
            subgraph_operation_kind: OperationKind::String,
        }),
        Some("mutation".to_string())
    );
    assert_eq!(
        on(SubgraphCustomAttribute::SupergraphOperationKind {
            supergraph_operation_kind: OperationKind::String,
        }),
        Some("query".to_string())
    );
    assert_eq!(
        on(SubgraphCustomAttribute::SubgraphQueryVariable {
            subgraph_query_variable: "ids".to_string(),
            redact: None,
            default: None,
        }),
        Some(r#"["a","b"]"#.to_string())
    );
    assert_eq!(
        on(SubgraphCustomAttribute::SubgraphQueryVariable {
            subgraph_query_variable: "id".to_string(),
            redact: None,
            default: None,
        }),
        None
    );
    assert_eq!(
        on(SubgraphCustomAttribute::SupergraphQueryVariable {
            supergraph_query_variable: "id".to_string(),
            redact: None,
            default: None,
        }),
        Some("7".to_string())
    );
    assert_eq!(
        on(SubgraphCustomAttribute::SubgraphRequestHeader {
            subgraph_request_header: "x-hop".to_string(),
            redact: None,
            default: None,
        }),
        Some("2".to_string())
    );
    assert_eq!(
        on(SubgraphCustomAttribute::SupergraphRequestHeader {
            supergraph_request_header: "x-hop".to_string(),
            redact: None,
            default: default_text("d"),
        }),
        Some("d".to_string())
    );
    assert_eq!(
        on(SubgraphCustomAttribute::SupergraphRequestHeader {
            supergraph_request_header: "x-client".to_string(),
            redact: None,
            default: None,
        }),
        Some("web".to_string())
    );
    assert_eq!(
        on(SubgraphCustomAttribute::RequestContext {
            request_context: "operation_kind".to_string(),
            redact: None,
            default: None,
        }),
        Some("query".to_string())
    );
    assert_eq!(
        on(SubgraphCustomAttribute::Baggage {
            baggage: "tenant".to_string(),
            redact: None,
            default: None,
        }),
        Some("acme".to_string())
    );
    assert_eq!(
        on(SubgraphCustomAttribute::Env { env: "NONE".to_string(), redact: None, default: Some("d".to_string()) }),
        Some("d".to_string())
    );
    assert_eq!(
        on(SubgraphCustomAttribute::SubgraphResponseHeader {
            subgraph_response_header: "x-hop".to_string(),
            redact: None,
            default: default_text("d"),
        }),
        None
    );
    assert_eq!(
        on(SubgraphCustomAttribute::SubgraphQuery {
            subgraph_query: Query::String,
            redact: None,
            default: Some("d".to_string()),
        }),
        Some("d".to_string())
    );
    assert_eq!(
        on(SubgraphCustomAttribute::SubgraphQuery {
            subgraph_query: Query::String,
            redact: None,
            default: None,
        }),
        None
    );
    assert_eq!(
        on(SubgraphCustomAttribute::SupergraphResponseHeader {
            supergraph_response_header: "x-client".to_string(),
            redact: None,
            default: default_text("d"),
        }),
        None
    );
    let mut unnamed = subgraph_request();
    unnamed.subgraph_body.operation_name = None;
    unnamed.operation_kind = OperationType::Subscription;
    let rule = SubgraphCustomAttribute::SubgraphOperationName {
        subgraph_operation_name: OperationName::String,
        redact: None,
        default: Some("d".to_string()),
    };
    assert_eq!(string(rule.on_request(&unnamed)), Some("d".to_string()));
    let kind = SubgraphCustomAttribute::SubgraphOperationKind {
        subgraph_operation_kind: OperationKind::String,
    };
    assert_eq!(string(kind.on_request(&unnamed)), Some("subscription".to_string()));
    unnamed.operation_kind = OperationType::Query;
    assert_eq!(string(kind.on_request(&unnamed)), Some("query".to_string()));
}

fn subgraph_response() -> SubgraphResponse {
    SubgraphResponse {
        headers: headers(vec![("x-served-by", b"products")]),
        body: serde_json::from_str(
            r#"{"data": {"count": 3, "debt": -4, "ratio": 0.5, "big": 18446744073709551615,
                "name": "n", "ok": false, "nothing": null, "items": [{"id": "i0"}, {"id": "i1"}],
                "nested": {"a": 1}}}"#,
        )
        .unwrap(),
        context: entries(vec![("cost", Json::Number(JsonNumber::Unsigned(1)))]),
    }
}

#[test]
fn a_body_path_leads_to_a_leaf() {
    let body = subgraph_response().body;
    assert!(matches!(read_body(&body, ".data.count"), Some(AttributeValue::I64(3))));
    assert!(matches!(read_body(&body, ".data.debt"), Some(AttributeValue::I64(-4))));
    assert!(matches!(
        read_body(&body, ".data.ratio"),
        Some(AttributeValue::Double { bits }) if f64::from_bits(bits) == 0.5
    ));
    assert!(matches!(read_body(&body, ".data.big"), Some(AttributeValue::U128(18446744073709551615))));
    assert!(matches!(read_body(&body, ".data.name"), Some(AttributeValue::String(s)) if s == "n"));
    assert!(matches!(read_body(&body, ".data.ok"), Some(AttributeValue::Bool(false))));
    assert!(matches!(read_body(&body, ".data.items[1].id"), Some(AttributeValue::String(s)) if s == "i1"));
    assert!(read_body(&body, ".data.nothing").is_none());
    assert!(read_body(&body, ".data.items").is_none());
    assert!(read_body(&body, ".data.nested").is_none());
    assert!(read_body(&body, ".data.items[2].id").is_none());
    assert!(read_body(&body, ".missing").is_none());
    assert!(read_body(&body, "no path").is_none());
    assert!(read_body(&body, "").is_none());
    assert!(read_body(&serde_json::Value::Bool(true), "").is_none());
    assert!(read_body(&serde_json::Value::Bool(true), ".a").is_none());
    assert!(read_body(&serde_json::Value::Null, "[0]").is_none());
}

#[test]
fn subgraph_rules_on_response() {
    let response = subgraph_response();
    let body = |path: &str, default: Option<AttributeValue>| SubgraphCustomAttribute::SubgraphResponseBody {
        subgraph_response_body: path.to_string(),
        redact: None,
        default,
    };
    assert!(matches!(body(".data.count", default_text("d")).on_response(&response), Some(AttributeValue::I64(3))));
    assert_eq!(string(body(".data.none", default_text("d")).on_response(&response)), Some("d".to_string()));
    assert_eq!(string(body(".data.items", default_text("d")).on_response(&response)), Some("d".to_string()));
    assert_eq!(string(body("", default_text("d")).on_response(&response)), Some("d".to_string()));
    assert!(body(".data.none", None).on_response(&response).is_none());
    assert!(body(".data.count", None).on_request(&subgraph_request()).is_none());
    let header = SubgraphCustomAttribute::SubgraphResponseHeader {
        subgraph_response_header: "X-Served-By".to_string(),
        redact: None,
        default: None,
    };
    assert_eq!(string(header.on_response(&response)), Some("products".to_string()));
    let context = SubgraphCustomAttribute::ResponseContext {
        response_context: "cost".to_string(),
        redact: None,
        default: None,
    };
    assert!(matches!(context.on_response(&response), Some(AttributeValue::I64(1))));
    let supergraph_header = |default: Option<AttributeValue>| {
        SubgraphCustomAttribute::SupergraphResponseHeader {
            supergraph_response_header: "x-served-by".to_string(),
            redact: None,
            default,
        }
    };
    assert_eq!(string(supergraph_header(default_text("d")).on_response(&response)), Some("d".to_string()));
    assert!(supergraph_header(None).on_response(&response).is_none());
    let query = SubgraphCustomAttribute::SubgraphQuery {
        subgraph_query: Query::String,
        redact: None,
        default: Some("d".to_string()),
    };
    assert!(query.on_response(&response).is_none());
    let request_header = SubgraphCustomAttribute::SubgraphRequestHeader {
        subgraph_request_header: "x-served-by".to_string(),
        redact: None,
        default: default_text("d"),
    };
    assert!(request_header.on_response(&response).is_none());
}

#[test]
fn named_values_are_looked_up_by_their_first_entry() {
    let store = entries(vec![
        ("a", Json::Number(JsonNumber::Unsigned(1))),
        ("a", Json::Number(JsonNumber::Unsigned(2))),
        ("t", text("x")),
        ("o", Json::Object(vec![])),
    ]);
    assert!(matches!(store.get("a"), Some(AttributeValue::I64(1))));
    assert!(store.get("o").is_none());
    assert!(store.get("z").is_none());
    assert_eq!(store.get_text("t"), Some("x".to_string()));
    assert_eq!(store.get_text("a"), None);
    assert_eq!(store.get_text("z"), None);
}

#[test]
fn versions_and_kinds_have_their_names() {
    assert_eq!(HttpVersion::Http09.text(), "HTTP/0.9");
    assert_eq!(HttpVersion::Http10.text(), "HTTP/1.0");
    assert_eq!(HttpVersion::Http11.text(), "HTTP/1.1");
    assert_eq!(HttpVersion::H2.text(), "HTTP/2.0");
    assert_eq!(HttpVersion::H3.text(), "HTTP/3.0");
    assert_eq!(OperationType::Query.text(), "query");
    assert_eq!(OperationType::Mutation.text(), "mutation");
    assert_eq!(OperationType::Subscription.text(), "subscription");
}

#[test]
fn a_trace_id_of_zero_is_no_trace() {
    let none = Ambient::of(0, vec![], entries(vec![]));
    assert_eq!(none.trace_id, None);
    let some = Ambient::of(
        7,
        vec![BaggageItem { key: "tenant".to_string(), value: BaggageValue::String("acme".to_string()) }],
        entries(vec![("HOME", text("/root"))]),
    );
    assert_eq!(some.trace_id, Some(7));
    assert_eq!(string(some.baggage.get("tenant")), Some("acme".to_string()));
    assert!(some.baggage.get("Tenant").is_none());
    assert_eq!(some.environment.get_text("HOME"), Some("/root".to_string()));
}

#[test]
fn without_a_span_no_trace_is_active() {
    let now = Ambient::current(entries(vec![("REGION", text("eu"))]));
    assert_eq!(now.trace_id, None);
    assert!(now.baggage.items.is_empty());
    assert_ne!(now.trace_id, Some(0));
    assert_eq!(now.environment.get_text("REGION"), Some("eu".to_string()));
    let rule = RouterCustomAttribute::TraceId { trace_id: TraceIdFormat::OpenTelemetry };
    let mut request = router_request();
    request.ambient = now;
    assert!(rule.on_request(&request).is_none());
}
