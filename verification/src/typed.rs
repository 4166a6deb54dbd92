//! What the typed attribute sets of the edge-facing stage resolve to.

use crate::attributes::{HttpCommonAttributes, HttpServerAttributes, RouterAttributes};
use crate::events::{header, read_header, RouterRequest, RouterResponse, StageError};
use crate::names::{
    CONTENT_LENGTH, ERROR_TYPE, HTTP_REQUEST_BODY_SIZE, HTTP_RESPONSE_BODY_SIZE,
    HTTP_RESPONSE_STATUS_CODE, HTTP_ROUTE, NETWORK_PROTOCOL_NAME, NETWORK_PROTOCOL_VERSION,
    NETWORK_TRANSPORT, SERVER_ADDRESS, SERVER_PORT, URL_PATH, URL_QUERY, URL_SCHEME, USER_AGENT,
    USER_AGENT_ORIGINAL,
};
use crate::outside::{status_line, status_text};
use crate::protocol::{is_on, put, with, GetAttributes};
use crate::resolved::Attributes;
use crate::text::{decimal, decimal_text};
use crate::value::{text_attribute, text_of, text_value, AttributeValue, AttributeValueView};
use vstd::prelude::*;

verus! {

/// The value of the `error.type` attribute: every failure of a stage counts
/// as an internal server error.
pub const ERROR_STATUS: i64 = 500;

/// The port as the text of its number.
pub open spec fn port_text(port: Option<u16>) -> Option<Seq<char>> {
    match port {
        Some(p) => Some(decimal(p as nat)),
        None => None,
    }
}

impl GetAttributes<RouterRequest, RouterResponse> for HttpCommonAttributes {
    open spec fn request_attributes(&self, request: &RouterRequest) -> Map<
        Seq<char>,
        AttributeValueView,
    > {
        let none = Map::<Seq<char>, AttributeValueView>::empty();
        let size = with(
            none,
            self.http_request_body_size,
            HTTP_REQUEST_BODY_SIZE@,
            text_value(header(request.headers, CONTENT_LENGTH@)),
        );
        let protocol = with(
            size,
            self.network_protocol_name,
            NETWORK_PROTOCOL_NAME@,
            text_value(Some("http"@)),
        );
        let version = with(
            protocol,
            self.network_protocol_version,
            NETWORK_PROTOCOL_VERSION@,
            text_value(Some(request.version.name())),
        );
        let transport = with(
            version,
            self.network_transport,
            NETWORK_TRANSPORT@,
            text_value(Some("tcp"@)),
        );
        with(
            transport,
            self.user_agent_original,
            USER_AGENT_ORIGINAL@,
            text_value(header(request.headers, USER_AGENT@)),
        )
    }

    open spec fn response_attributes(&self, response: &RouterResponse) -> Map<
        Seq<char>,
        AttributeValueView,
    > {
        let none = Map::<Seq<char>, AttributeValueView>::empty();
        let size = with(
            none,
            self.http_response_body_size,
            HTTP_RESPONSE_BODY_SIZE@,
            text_value(header(response.headers, CONTENT_LENGTH@)),
        );
        with(
            size,
            self.http_response_status_code,
            HTTP_RESPONSE_STATUS_CODE@,
            text_value(status_line(response.status)),
        )
    }

    open spec fn error_attributes(&self, error: &StageError) -> Map<Seq<char>, AttributeValueView> {
        with(
            Map::empty(),
            self.error_type,
            ERROR_TYPE@,
            Some(AttributeValueView::I64(ERROR_STATUS)),
        )
    }

    fn on_request(&self, request: &RouterRequest) -> (attributes: Attributes) {
        let mut attrs = Attributes::new();
        if is_on(&self.http_request_body_size) {
            let size = read_header(&request.headers, CONTENT_LENGTH);
            put(&mut attrs, HTTP_REQUEST_BODY_SIZE, text_attribute(size));
        }
        if is_on(&self.network_protocol_name) {
            put(&mut attrs, NETWORK_PROTOCOL_NAME, text_attribute(Some("http".to_owned())));
        }
        if is_on(&self.network_protocol_version) {
            put(&mut attrs, NETWORK_PROTOCOL_VERSION, text_attribute(Some(request.version.text())));
        }
        if is_on(&self.network_transport) {
            put(&mut attrs, NETWORK_TRANSPORT, text_attribute(Some("tcp".to_owned())));
        }
        if is_on(&self.user_agent_original) {
            let agent = read_header(&request.headers, USER_AGENT);
            put(&mut attrs, USER_AGENT_ORIGINAL, text_attribute(agent));
        }
        attrs
    }

    fn on_response(&self, response: &RouterResponse) -> (attributes: Attributes)
        ensures
            self.http_response_status_code == Some(true) ==> (attributes@.contains_key(
                HTTP_RESPONSE_STATUS_CODE@,
            ) <==> 100 <= response.status < 1000),
    {
        let mut attrs = Attributes::new();
        if is_on(&self.http_response_body_size) {
            let size = read_header(&response.headers, CONTENT_LENGTH);
            put(&mut attrs, HTTP_RESPONSE_BODY_SIZE, text_attribute(size));
        }
        if is_on(&self.http_response_status_code) {
            put(&mut attrs, HTTP_RESPONSE_STATUS_CODE, text_attribute(status_text(response.status)));
        }
        proof {
            reveal_strlit("http.response.body.size");
            reveal_strlit("http.response.status_code");
            assert(HTTP_RESPONSE_BODY_SIZE@.len() != HTTP_RESPONSE_STATUS_CODE@.len());
        }
        attrs
    }

    fn on_error(&self, error: &StageError) -> (attributes: Attributes) {
        let mut attrs = Attributes::new();
        if is_on(&self.error_type) {
            put(&mut attrs, ERROR_TYPE, Some(AttributeValue::I64(ERROR_STATUS)));
        }
        attrs
    }
}

impl GetAttributes<RouterRequest, RouterResponse> for HttpServerAttributes {
    open spec fn request_attributes(&self, request: &RouterRequest) -> Map<
        Seq<char>,
        AttributeValueView,
    > {
        let none = Map::<Seq<char>, AttributeValueView>::empty();
        let uri = request.uri;
        let route = with(none, self.http_route, HTTP_ROUTE@, text_value(Some(uri.text@)));
        let address = with(
            route,
            self.server_address,
            SERVER_ADDRESS@,
            text_value(text_of(uri.host)),
        );
        let port = with(address, self.server_port, SERVER_PORT@, text_value(port_text(uri.port)));
        let path = with(port, self.url_path, URL_PATH@, text_value(Some(uri.path@)));
        let query = with(path, self.url_query, URL_QUERY@, text_value(text_of(uri.query)));
        with(query, self.url_scheme, URL_SCHEME@, text_value(text_of(uri.scheme)))
    }

    open spec fn response_attributes(&self, response: &RouterResponse) -> Map<
        Seq<char>,
        AttributeValueView,
    > {
        Map::empty()
    }

    open spec fn error_attributes(&self, error: &StageError) -> Map<Seq<char>, AttributeValueView> {
        Map::empty()
    }

    fn on_request(&self, request: &RouterRequest) -> (attributes: Attributes) {
        let mut attrs = Attributes::new();
        let uri = &request.uri;
        if is_on(&self.http_route) {
            put(&mut attrs, HTTP_ROUTE, text_attribute(Some(uri.text.clone())));
        }
        if is_on(&self.server_address) {
            put(&mut attrs, SERVER_ADDRESS, text_attribute(uri.host.clone()));
        }
        if is_on(&self.server_port) {
            let port = match uri.port {
                Some(p) => Some(decimal_text(p as u64)),
                None => None,
            };
            put(&mut attrs, SERVER_PORT, text_attribute(port));
        }
        if is_on(&self.url_path) {
            put(&mut attrs, URL_PATH, text_attribute(Some(uri.path.clone())));
        }
        if is_on(&self.url_query) {
            put(&mut attrs, URL_QUERY, text_attribute(uri.query.clone()));
        }
        if is_on(&self.url_scheme) {
            put(&mut attrs, URL_SCHEME, text_attribute(uri.scheme.clone()));
        }
        attrs
    }

    fn on_response(&self, response: &RouterResponse) -> (attributes: Attributes) {
        Attributes::new()
    }

    fn on_error(&self, error: &StageError) -> (attributes: Attributes) {
        Attributes::new()
    }
}

impl GetAttributes<RouterRequest, RouterResponse> for RouterAttributes {
    open spec fn request_attributes(&self, request: &RouterRequest) -> Map<
        Seq<char>,
        AttributeValueView,
    > {
        self.common.request_attributes(request)
    }

    open spec fn response_attributes(&self, response: &RouterResponse) -> Map<
        Seq<char>,
        AttributeValueView,
    > {
        self.common.response_attributes(response)
    }

    open spec fn error_attributes(&self, error: &StageError) -> Map<Seq<char>, AttributeValueView> {
        self.common.error_attributes(error)
    }

    fn on_request(&self, request: &RouterRequest) -> (attributes: Attributes) {
        self.common.on_request(request)
    }

    fn on_response(&self, response: &RouterResponse) -> (attributes: Attributes)
        ensures
            self.common.http_response_status_code == Some(true) ==> (attributes@.contains_key(
                HTTP_RESPONSE_STATUS_CODE@,
            ) <==> 100 <= response.status < 1000),
    {
        self.common.on_response(response)
    }

    fn on_error(&self, error: &StageError) -> (attributes: Attributes) {
        self.common.on_error(error)
    }
}

} // verus!
