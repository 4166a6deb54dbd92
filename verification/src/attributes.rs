//! The typed attribute sets of the pipeline stages.
//!
//! Every field is a switch with three positions: `None` leaves the attribute
//! to the default policy, `Some(false)` switches it off and `Some(true)`
//! switches it on.

use crate::config::{read_toggle, toggle, TypedAttributes};
use crate::json::Member;
use crate::names::{
    CLIENT_ADDRESS,
    CLIENT_PORT,
    ERROR_TYPE,
    GRAPHQL_DOCUMENT,
    GRAPHQL_FEDERATION_SUBGRAPH_NAME,
    GRAPHQL_OPERATION_NAME,
    GRAPHQL_OPERATION_TYPE,
    HTTP_REQUEST_BODY_SIZE,
    HTTP_REQUEST_METHOD,
    HTTP_REQUEST_METHOD_ORIGINAL,
    HTTP_RESEND_COUNT,
    HTTP_RESPONSE_BODY_SIZE,
    HTTP_RESPONSE_STATUS_CODE,
    HTTP_ROUTE,
    NETWORK_LOCAL_ADDRESS,
    NETWORK_LOCAL_PORT,
    NETWORK_PEER_ADDRESS,
    NETWORK_PEER_PORT,
    NETWORK_PROTOCOL_NAME,
    NETWORK_PROTOCOL_VERSION,
    NETWORK_TRANSPORT,
    NETWORK_TYPE,
    SERVER_ADDRESS,
    SERVER_PORT,
    URL_FULL,
    URL_PATH,
    URL_QUERY,
    URL_SCHEME,
    USER_AGENT_ORIGINAL,
};
use vstd::prelude::*;

verus! {

/// The attributes that HTTP servers and clients share.
#[derive(Clone, Copy, Debug)]
pub struct HttpCommonAttributes {
    /// The class of error that the operation ended with.
    pub error_type: Option<bool>,
    /// The size of the request body in bytes.
    pub http_request_body_size: Option<bool>,
    /// The request method.
    pub http_request_method: Option<bool>,
    /// The method as the client wrote it in the request line.
    pub http_request_method_original: Option<bool>,
    /// The size of the response body in bytes.
    pub http_response_body_size: Option<bool>,
    /// The status code of the response.
    pub http_response_status_code: Option<bool>,
    /// The application protocol.
    pub network_protocol_name: Option<bool>,
    /// The version of the application protocol.
    pub network_protocol_version: Option<bool>,
    /// The transport protocol.
    pub network_transport: Option<bool>,
    /// The network protocol.
    pub network_type: Option<bool>,
    /// The `User-Agent` header that the client sent.
    pub user_agent_original: Option<bool>,
}

impl HttpCommonAttributes {
    /// The set in which no switch is set.
    pub open spec fn blank() -> HttpCommonAttributes {
        HttpCommonAttributes {
            error_type: None,
            http_request_body_size: None,
            http_request_method: None,
            http_request_method_original: None,
            http_response_body_size: None,
            http_response_status_code: None,
            network_protocol_name: None,
            network_protocol_version: None,
            network_transport: None,
            network_type: None,
            user_agent_original: None,
        }
    }

    /// Whether the attribute called `name` is switched on.
    pub open spec fn enabled(self, name: Seq<char>) -> bool {
        ||| (name == ERROR_TYPE@ && self.error_type == Some(true))
        ||| (name == HTTP_REQUEST_BODY_SIZE@ && self.http_request_body_size == Some(true))
        ||| (name == HTTP_REQUEST_METHOD@ && self.http_request_method == Some(true))
        ||| (name == HTTP_REQUEST_METHOD_ORIGINAL@ && self.http_request_method_original == Some(true))
        ||| (name == HTTP_RESPONSE_BODY_SIZE@ && self.http_response_body_size == Some(true))
        ||| (name == HTTP_RESPONSE_STATUS_CODE@ && self.http_response_status_code == Some(true))
        ||| (name == NETWORK_PROTOCOL_NAME@ && self.network_protocol_name == Some(true))
        ||| (name == NETWORK_PROTOCOL_VERSION@ && self.network_protocol_version == Some(true))
        ||| (name == NETWORK_TRANSPORT@ && self.network_transport == Some(true))
        ||| (name == NETWORK_TYPE@ && self.network_type == Some(true))
        ||| (name == USER_AGENT_ORIGINAL@ && self.user_agent_original == Some(true))
    }
}

impl Default for HttpCommonAttributes {
    fn default() -> (set: HttpCommonAttributes)
        ensures
            set == HttpCommonAttributes::blank(),
    {
        HttpCommonAttributes {
            error_type: None,
            http_request_body_size: None,
            http_request_method: None,
            http_request_method_original: None,
            http_response_body_size: None,
            http_response_status_code: None,
            network_protocol_name: None,
            network_protocol_version: None,
            network_transport: None,
            network_type: None,
            user_agent_original: None,
        }
    }
}

impl TypedAttributes for HttpCommonAttributes {
    open spec fn names(name: Seq<char>) -> bool {
        ||| name == ERROR_TYPE@
        ||| name == HTTP_REQUEST_BODY_SIZE@
        ||| name == HTTP_REQUEST_METHOD@
        ||| name == HTTP_REQUEST_METHOD_ORIGINAL@
        ||| name == HTTP_RESPONSE_BODY_SIZE@
        ||| name == HTTP_RESPONSE_STATUS_CODE@
        ||| name == NETWORK_PROTOCOL_NAME@
        ||| name == NETWORK_PROTOCOL_VERSION@
        ||| name == NETWORK_TRANSPORT@
        ||| name == NETWORK_TYPE@
        ||| name == USER_AGENT_ORIGINAL@
    }

    open spec fn configured_by(&self, members: Seq<Member>) -> bool {
        &&& self.error_type == toggle(members, ERROR_TYPE@)
        &&& self.http_request_body_size == toggle(members, HTTP_REQUEST_BODY_SIZE@)
        &&& self.http_request_method == toggle(members, HTTP_REQUEST_METHOD@)
        &&& self.http_request_method_original == toggle(members, HTTP_REQUEST_METHOD_ORIGINAL@)
        &&& self.http_response_body_size == toggle(members, HTTP_RESPONSE_BODY_SIZE@)
        &&& self.http_response_status_code == toggle(members, HTTP_RESPONSE_STATUS_CODE@)
        &&& self.network_protocol_name == toggle(members, NETWORK_PROTOCOL_NAME@)
        &&& self.network_protocol_version == toggle(members, NETWORK_PROTOCOL_VERSION@)
        &&& self.network_transport == toggle(members, NETWORK_TRANSPORT@)
        &&& self.network_type == toggle(members, NETWORK_TYPE@)
        &&& self.user_agent_original == toggle(members, USER_AGENT_ORIGINAL@)
    }

    fn knows(name: &str) -> (known: bool) {
        let name = name.to_owned();
        name == ERROR_TYPE.to_owned()
            || name == HTTP_REQUEST_BODY_SIZE.to_owned()
            || name == HTTP_REQUEST_METHOD.to_owned()
            || name == HTTP_REQUEST_METHOD_ORIGINAL.to_owned()
            || name == HTTP_RESPONSE_BODY_SIZE.to_owned()
            || name == HTTP_RESPONSE_STATUS_CODE.to_owned()
            || name == NETWORK_PROTOCOL_NAME.to_owned()
            || name == NETWORK_PROTOCOL_VERSION.to_owned()
            || name == NETWORK_TRANSPORT.to_owned()
            || name == NETWORK_TYPE.to_owned()
            || name == USER_AGENT_ORIGINAL.to_owned()
    }

    fn configure(members: &Vec<Member>) -> (set: HttpCommonAttributes) {
        HttpCommonAttributes {
            error_type: read_toggle(members, ERROR_TYPE),
            http_request_body_size: read_toggle(members, HTTP_REQUEST_BODY_SIZE),
            http_request_method: read_toggle(members, HTTP_REQUEST_METHOD),
            http_request_method_original: read_toggle(members, HTTP_REQUEST_METHOD_ORIGINAL),
            http_response_body_size: read_toggle(members, HTTP_RESPONSE_BODY_SIZE),
            http_response_status_code: read_toggle(members, HTTP_RESPONSE_STATUS_CODE),
            network_protocol_name: read_toggle(members, NETWORK_PROTOCOL_NAME),
            network_protocol_version: read_toggle(members, NETWORK_PROTOCOL_VERSION),
            network_transport: read_toggle(members, NETWORK_TRANSPORT),
            network_type: read_toggle(members, NETWORK_TYPE),
            user_agent_original: read_toggle(members, USER_AGENT_ORIGINAL),
        }
    }
}

/// The attributes of HTTP servers.
#[derive(Clone, Copy, Debug)]
pub struct HttpServerAttributes {
    /// The address of the client. Configuration cannot set it.
    pub client_address: Option<bool>,
    /// The port of the client. Configuration cannot set it.
    pub client_port: Option<bool>,
    /// The route that matched.
    pub http_route: Option<bool>,
    /// The local socket address. Configuration cannot set it.
    pub network_local_address: Option<bool>,
    /// The local socket port. Configuration cannot set it.
    pub network_local_port: Option<bool>,
    /// The address of the peer. Configuration cannot set it.
    pub network_peer_address: Option<bool>,
    /// The port of the peer. Configuration cannot set it.
    pub network_peer_port: Option<bool>,
    /// The name of the server that received the request.
    pub server_address: Option<bool>,
    /// The port of the server that received the request.
    pub server_port: Option<bool>,
    /// The path of the request target.
    pub url_path: Option<bool>,
    /// The query of the request target.
    pub url_query: Option<bool>,
    /// The scheme of the request target.
    pub url_scheme: Option<bool>,
}

impl HttpServerAttributes {
    /// The set in which no switch is set.
    pub open spec fn blank() -> HttpServerAttributes {
        HttpServerAttributes {
            client_address: None,
            client_port: None,
            http_route: None,
            network_local_address: None,
            network_local_port: None,
            network_peer_address: None,
            network_peer_port: None,
            server_address: None,
            server_port: None,
            url_path: None,
            url_query: None,
            url_scheme: None,
        }
    }

    /// Whether the attribute called `name` is switched on.
    pub open spec fn enabled(self, name: Seq<char>) -> bool {
        ||| (name == CLIENT_ADDRESS@ && self.client_address == Some(true))
        ||| (name == CLIENT_PORT@ && self.client_port == Some(true))
        ||| (name == HTTP_ROUTE@ && self.http_route == Some(true))
        ||| (name == NETWORK_LOCAL_ADDRESS@ && self.network_local_address == Some(true))
        ||| (name == NETWORK_LOCAL_PORT@ && self.network_local_port == Some(true))
        ||| (name == NETWORK_PEER_ADDRESS@ && self.network_peer_address == Some(true))
        ||| (name == NETWORK_PEER_PORT@ && self.network_peer_port == Some(true))
        ||| (name == SERVER_ADDRESS@ && self.server_address == Some(true))
        ||| (name == SERVER_PORT@ && self.server_port == Some(true))
        ||| (name == URL_PATH@ && self.url_path == Some(true))
        ||| (name == URL_QUERY@ && self.url_query == Some(true))
        ||| (name == URL_SCHEME@ && self.url_scheme == Some(true))
    }
}

impl Default for HttpServerAttributes {
    fn default() -> (set: HttpServerAttributes)
        ensures
            set == HttpServerAttributes::blank(),
    {
        HttpServerAttributes {
            client_address: None,
            client_port: None,
            http_route: None,
            network_local_address: None,
            network_local_port: None,
            network_peer_address: None,
            network_peer_port: None,
            server_address: None,
            server_port: None,
            url_path: None,
            url_query: None,
            url_scheme: None,
        }
    }
}

impl TypedAttributes for HttpServerAttributes {
    open spec fn names(name: Seq<char>) -> bool {
        ||| name == HTTP_ROUTE@
        ||| name == SERVER_ADDRESS@
        ||| name == SERVER_PORT@
        ||| name == URL_PATH@
        ||| name == URL_QUERY@
        ||| name == URL_SCHEME@
    }

    open spec fn configured_by(&self, members: Seq<Member>) -> bool {
        &&& self.client_address is None
        &&& self.client_port is None
        &&& self.http_route == toggle(members, HTTP_ROUTE@)
        &&& self.network_local_address is None
        &&& self.network_local_port is None
        &&& self.network_peer_address is None
        &&& self.network_peer_port is None
        &&& self.server_address == toggle(members, SERVER_ADDRESS@)
        &&& self.server_port == toggle(members, SERVER_PORT@)
        &&& self.url_path == toggle(members, URL_PATH@)
        &&& self.url_query == toggle(members, URL_QUERY@)
        &&& self.url_scheme == toggle(members, URL_SCHEME@)
    }

    fn knows(name: &str) -> (known: bool) {
        let name = name.to_owned();
        name == HTTP_ROUTE.to_owned()
            || name == SERVER_ADDRESS.to_owned()
            || name == SERVER_PORT.to_owned()
            || name == URL_PATH.to_owned()
            || name == URL_QUERY.to_owned()
            || name == URL_SCHEME.to_owned()
    }

    fn configure(members: &Vec<Member>) -> (set: HttpServerAttributes) {
        HttpServerAttributes {
            client_address: None,
            client_port: None,
            http_route: read_toggle(members, HTTP_ROUTE),
            network_local_address: None,
            network_local_port: None,
            network_peer_address: None,
            network_peer_port: None,
            server_address: read_toggle(members, SERVER_ADDRESS),
            server_port: read_toggle(members, SERVER_PORT),
            url_path: read_toggle(members, URL_PATH),
            url_query: read_toggle(members, URL_QUERY),
            url_scheme: read_toggle(members, URL_SCHEME),
        }
    }
}

/// The attributes of HTTP clients.
#[derive(Clone, Copy, Debug)]
pub struct HttpClientAttributes {
    /// The ordinal number of the attempt to send the request again.
    pub http_resend_count: Option<bool>,
    /// The address of the peer.
    pub network_peer_address: Option<bool>,
    /// The port of the peer.
    pub network_peer_port: Option<bool>,
    /// The host that the request is sent to.
    pub server_address: Option<bool>,
    /// The port that the request is sent to.
    pub server_port: Option<bool>,
    /// The absolute URL of the request.
    pub url_full: Option<bool>,
}

impl HttpClientAttributes {
    /// The set in which no switch is set.
    pub open spec fn blank() -> HttpClientAttributes {
        HttpClientAttributes {
            http_resend_count: None,
            network_peer_address: None,
            network_peer_port: None,
            server_address: None,
            server_port: None,
            url_full: None,
        }
    }

    /// Whether the attribute called `name` is switched on.
    pub open spec fn enabled(self, name: Seq<char>) -> bool {
        ||| (name == HTTP_RESEND_COUNT@ && self.http_resend_count == Some(true))
        ||| (name == NETWORK_PEER_ADDRESS@ && self.network_peer_address == Some(true))
        ||| (name == NETWORK_PEER_PORT@ && self.network_peer_port == Some(true))
        ||| (name == SERVER_ADDRESS@ && self.server_address == Some(true))
        ||| (name == SERVER_PORT@ && self.server_port == Some(true))
        ||| (name == URL_FULL@ && self.url_full == Some(true))
    }
}

impl Default for HttpClientAttributes {
    fn default() -> (set: HttpClientAttributes)
        ensures
            set == HttpClientAttributes::blank(),
    {
        HttpClientAttributes {
            http_resend_count: None,
            network_peer_address: None,
            network_peer_port: None,
            server_address: None,
            server_port: None,
            url_full: None,
        }
    }
}

impl TypedAttributes for HttpClientAttributes {
    open spec fn names(name: Seq<char>) -> bool {
        ||| name == HTTP_RESEND_COUNT@
        ||| name == NETWORK_PEER_ADDRESS@
        ||| name == NETWORK_PEER_PORT@
        ||| name == SERVER_ADDRESS@
        ||| name == SERVER_PORT@
        ||| name == URL_FULL@
    }

    open spec fn configured_by(&self, members: Seq<Member>) -> bool {
        &&& self.http_resend_count == toggle(members, HTTP_RESEND_COUNT@)
        &&& self.network_peer_address == toggle(members, NETWORK_PEER_ADDRESS@)
        &&& self.network_peer_port == toggle(members, NETWORK_PEER_PORT@)
        &&& self.server_address == toggle(members, SERVER_ADDRESS@)
        &&& self.server_port == toggle(members, SERVER_PORT@)
        &&& self.url_full == toggle(members, URL_FULL@)
    }

    fn knows(name: &str) -> (known: bool) {
        let name = name.to_owned();
        name == HTTP_RESEND_COUNT.to_owned()
            || name == NETWORK_PEER_ADDRESS.to_owned()
            || name == NETWORK_PEER_PORT.to_owned()
            || name == SERVER_ADDRESS.to_owned()
            || name == SERVER_PORT.to_owned()
            || name == URL_FULL.to_owned()
    }

    fn configure(members: &Vec<Member>) -> (set: HttpClientAttributes) {
        HttpClientAttributes {
            http_resend_count: read_toggle(members, HTTP_RESEND_COUNT),
            network_peer_address: read_toggle(members, NETWORK_PEER_ADDRESS),
            network_peer_port: read_toggle(members, NETWORK_PEER_PORT),
            server_address: read_toggle(members, SERVER_ADDRESS),
            server_port: read_toggle(members, SERVER_PORT),
            url_full: read_toggle(members, URL_FULL),
        }
    }
}

/// The attributes of a federated query.
#[derive(Clone, Copy, Debug)]
pub struct SupergraphAttributes {
    /// The GraphQL document that is executed.
    pub graphql_document: Option<bool>,
    /// The name of the operation that is executed.
    pub graphql_operation_name: Option<bool>,
    /// The type of the operation that is executed.
    pub graphql_operation_type: Option<bool>,
}

impl SupergraphAttributes {
    /// The set in which no switch is set.
    pub open spec fn blank() -> SupergraphAttributes {
        SupergraphAttributes {
            graphql_document: None,
            graphql_operation_name: None,
            graphql_operation_type: None,
        }
    }

    /// Whether the attribute called `name` is switched on.
    pub open spec fn enabled(self, name: Seq<char>) -> bool {
        ||| (name == GRAPHQL_DOCUMENT@ && self.graphql_document == Some(true))
        ||| (name == GRAPHQL_OPERATION_NAME@ && self.graphql_operation_name == Some(true))
        ||| (name == GRAPHQL_OPERATION_TYPE@ && self.graphql_operation_type == Some(true))
    }
}

impl Default for SupergraphAttributes {
    fn default() -> (set: SupergraphAttributes)
        ensures
            set == SupergraphAttributes::blank(),
    {
        SupergraphAttributes {
            graphql_document: None,
            graphql_operation_name: None,
            graphql_operation_type: None,
        }
    }
}

impl TypedAttributes for SupergraphAttributes {
    open spec fn names(name: Seq<char>) -> bool {
        ||| name == GRAPHQL_DOCUMENT@
        ||| name == GRAPHQL_OPERATION_NAME@
        ||| name == GRAPHQL_OPERATION_TYPE@
    }

    open spec fn configured_by(&self, members: Seq<Member>) -> bool {
        &&& self.graphql_document == toggle(members, GRAPHQL_DOCUMENT@)
        &&& self.graphql_operation_name == toggle(members, GRAPHQL_OPERATION_NAME@)
        &&& self.graphql_operation_type == toggle(members, GRAPHQL_OPERATION_TYPE@)
    }

    fn knows(name: &str) -> (known: bool) {
        let name = name.to_owned();
        name == GRAPHQL_DOCUMENT.to_owned()
            || name == GRAPHQL_OPERATION_NAME.to_owned()
            || name == GRAPHQL_OPERATION_TYPE.to_owned()
    }

    fn configure(members: &Vec<Member>) -> (set: SupergraphAttributes) {
        SupergraphAttributes {
            graphql_document: read_toggle(members, GRAPHQL_DOCUMENT),
            graphql_operation_name: read_toggle(members, GRAPHQL_OPERATION_NAME),
            graphql_operation_type: read_toggle(members, GRAPHQL_OPERATION_TYPE),
        }
    }
}

/// The attributes of a request to a downstream service.
#[derive(Clone, Copy, Debug)]
pub struct SubgraphAttributes {
    /// The name of the downstream service.
    pub graphql_federation_subgraph_name: Option<bool>,
    /// The GraphQL document that is executed.
    pub graphql_document: Option<bool>,
    /// The name of the operation that is executed.
    pub graphql_operation_name: Option<bool>,
    /// The type of the operation that is executed.
    pub graphql_operation_type: Option<bool>,
}

impl SubgraphAttributes {
    /// The set in which no switch is set.
    pub open spec fn blank() -> SubgraphAttributes {
        SubgraphAttributes {
            graphql_federation_subgraph_name: None,
            graphql_document: None,
            graphql_operation_name: None,
            graphql_operation_type: None,
        }
    }

    /// Whether the attribute called `name` is switched on.
    pub open spec fn enabled(self, name: Seq<char>) -> bool {
        ||| (name == GRAPHQL_FEDERATION_SUBGRAPH_NAME@ && self.graphql_federation_subgraph_name == Some(true))
        ||| (name == GRAPHQL_DOCUMENT@ && self.graphql_document == Some(true))
        ||| (name == GRAPHQL_OPERATION_NAME@ && self.graphql_operation_name == Some(true))
        ||| (name == GRAPHQL_OPERATION_TYPE@ && self.graphql_operation_type == Some(true))
    }
}

impl Default for SubgraphAttributes {
    fn default() -> (set: SubgraphAttributes)
        ensures
            set == SubgraphAttributes::blank(),
    {
        SubgraphAttributes {
            graphql_federation_subgraph_name: None,
            graphql_document: None,
            graphql_operation_name: None,
            graphql_operation_type: None,
        }
    }
}

impl TypedAttributes for SubgraphAttributes {
    open spec fn names(name: Seq<char>) -> bool {
        ||| name == GRAPHQL_FEDERATION_SUBGRAPH_NAME@
        ||| name == GRAPHQL_DOCUMENT@
        ||| name == GRAPHQL_OPERATION_NAME@
        ||| name == GRAPHQL_OPERATION_TYPE@
    }

    open spec fn configured_by(&self, members: Seq<Member>) -> bool {
        &&& self.graphql_federation_subgraph_name == toggle(members, GRAPHQL_FEDERATION_SUBGRAPH_NAME@)
        &&& self.graphql_document == toggle(members, GRAPHQL_DOCUMENT@)
        &&& self.graphql_operation_name == toggle(members, GRAPHQL_OPERATION_NAME@)
        &&& self.graphql_operation_type == toggle(members, GRAPHQL_OPERATION_TYPE@)
    }

    fn knows(name: &str) -> (known: bool) {
        let name = name.to_owned();
        name == GRAPHQL_FEDERATION_SUBGRAPH_NAME.to_owned()
            || name == GRAPHQL_DOCUMENT.to_owned()
            || name == GRAPHQL_OPERATION_NAME.to_owned()
            || name == GRAPHQL_OPERATION_TYPE.to_owned()
    }

    fn configure(members: &Vec<Member>) -> (set: SubgraphAttributes) {
        SubgraphAttributes {
            graphql_federation_subgraph_name: read_toggle(members, GRAPHQL_FEDERATION_SUBGRAPH_NAME),
            graphql_document: read_toggle(members, GRAPHQL_DOCUMENT),
            graphql_operation_name: read_toggle(members, GRAPHQL_OPERATION_NAME),
            graphql_operation_type: read_toggle(members, GRAPHQL_OPERATION_TYPE),
        }
    }
}

/// The attributes of the edge-facing stage: the common HTTP attributes and
/// those of HTTP servers, configured side by side in one mapping.
#[derive(Clone, Copy, Debug)]
pub struct RouterAttributes {
    /// The attributes that HTTP servers and clients share.
    pub common: HttpCommonAttributes,
    /// The attributes of HTTP servers.
    pub server: HttpServerAttributes,
}

impl RouterAttributes {
    /// The set in which no switch is set.
    pub open spec fn blank() -> RouterAttributes {
        RouterAttributes { common: HttpCommonAttributes::blank(), server: HttpServerAttributes::blank() }
    }

    /// Whether the attribute called `name` is switched on.
    pub open spec fn enabled(self, name: Seq<char>) -> bool {
        self.common.enabled(name) || self.server.enabled(name)
    }
}

impl Default for RouterAttributes {
    fn default() -> (set: RouterAttributes)
        ensures
            set == RouterAttributes::blank(),
    {
        RouterAttributes { common: HttpCommonAttributes::default(), server: HttpServerAttributes::default() }
    }
}

impl TypedAttributes for RouterAttributes {
    open spec fn names(name: Seq<char>) -> bool {
        HttpCommonAttributes::names(name) || HttpServerAttributes::names(name)
    }

    open spec fn configured_by(&self, members: Seq<Member>) -> bool {
        self.common.configured_by(members) && self.server.configured_by(members)
    }

    fn knows(name: &str) -> (known: bool) {
        HttpCommonAttributes::knows(name) || HttpServerAttributes::knows(name)
    }

    fn configure(members: &Vec<Member>) -> (set: RouterAttributes) {
        RouterAttributes {
            common: HttpCommonAttributes::configure(members),
            server: HttpServerAttributes::configure(members),
        }
    }
}

} // verus!
