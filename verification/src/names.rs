//! The names of the well-known attributes and of the context entries that
//! the rules read.

use vstd::prelude::*;

verus! {

pub const ERROR_TYPE: &'static str = "error.type";

pub const HTTP_REQUEST_BODY_SIZE: &'static str = "http.request.body.size";

pub const HTTP_REQUEST_METHOD: &'static str = "http.request.method";

pub const HTTP_REQUEST_METHOD_ORIGINAL: &'static str = "http.request.method.original";

pub const HTTP_RESPONSE_BODY_SIZE: &'static str = "http.response.body.size";

pub const HTTP_RESPONSE_STATUS_CODE: &'static str = "http.response.status_code";

pub const NETWORK_PROTOCOL_NAME: &'static str = "network.protocol.name";

pub const NETWORK_PROTOCOL_VERSION: &'static str = "network.protocol.version";

pub const NETWORK_TRANSPORT: &'static str = "network.transport";

pub const NETWORK_TYPE: &'static str = "network.type";

pub const USER_AGENT_ORIGINAL: &'static str = "user_agent.original";

pub const CLIENT_ADDRESS: &'static str = "client.address";

pub const CLIENT_PORT: &'static str = "client.port";

pub const NETWORK_LOCAL_ADDRESS: &'static str = "network.local.address";

pub const NETWORK_LOCAL_PORT: &'static str = "network.local.port";

pub const HTTP_ROUTE: &'static str = "http.route";

pub const SERVER_ADDRESS: &'static str = "server.address";

pub const SERVER_PORT: &'static str = "server.port";

pub const URL_PATH: &'static str = "url.path";

pub const URL_QUERY: &'static str = "url.query";

pub const URL_SCHEME: &'static str = "url.scheme";

pub const HTTP_RESEND_COUNT: &'static str = "http.resend_count";

pub const NETWORK_PEER_ADDRESS: &'static str = "network.peer.address";

pub const NETWORK_PEER_PORT: &'static str = "network.peer.port";

pub const URL_FULL: &'static str = "url.full";

pub const GRAPHQL_DOCUMENT: &'static str = "graphql.document";

pub const GRAPHQL_OPERATION_NAME: &'static str = "graphql.operation.name";

pub const GRAPHQL_OPERATION_TYPE: &'static str = "graphql.operation.type";

pub const GRAPHQL_FEDERATION_SUBGRAPH_NAME: &'static str = "graphql.federation.subgraph.name";

/// The header that carries the size of a body.
pub const CONTENT_LENGTH: &'static str = "content-length";

/// The header that carries the client's description of itself.
pub const USER_AGENT: &'static str = "user-agent";

/// The context entry that holds the name of the operation.
pub const OPERATION_NAME: &'static str = "operation_name";

/// The context entry that holds the kind of the operation.
pub const OPERATION_KIND: &'static str = "operation_kind";

} // verus!
