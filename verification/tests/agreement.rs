use http::{HeaderValue, Version};
use opentelemetry_semantic_conventions::trace;
use telemetry_attributes::events::HttpVersion;
use telemetry_attributes::names;
use telemetry_attributes::text::header_text;

#[test]
fn attribute_names_are_those_of_the_semantic_conventions() {
    assert_eq!(names::HTTP_REQUEST_BODY_SIZE, trace::HTTP_REQUEST_BODY_SIZE.as_str());
    assert_eq!(names::HTTP_RESPONSE_BODY_SIZE, trace::HTTP_RESPONSE_BODY_SIZE.as_str());
    assert_eq!(names::HTTP_RESPONSE_STATUS_CODE, trace::HTTP_RESPONSE_STATUS_CODE.as_str());
    assert_eq!(names::HTTP_ROUTE, trace::HTTP_ROUTE.as_str());
    assert_eq!(names::NETWORK_PROTOCOL_NAME, trace::NETWORK_PROTOCOL_NAME.as_str());
    assert_eq!(names::NETWORK_PROTOCOL_VERSION, trace::NETWORK_PROTOCOL_VERSION.as_str());
    assert_eq!(names::NETWORK_TRANSPORT, trace::NETWORK_TRANSPORT.as_str());
    assert_eq!(names::SERVER_ADDRESS, trace::SERVER_ADDRESS.as_str());
    assert_eq!(names::SERVER_PORT, trace::SERVER_PORT.as_str());
    assert_eq!(names::URL_PATH, trace::URL_PATH.as_str());
    assert_eq!(names::URL_QUERY, trace::URL_QUERY.as_str());
    assert_eq!(names::URL_SCHEME, trace::URL_SCHEME.as_str());
    assert_eq!(names::USER_AGENT_ORIGINAL, trace::USER_AGENT_ORIGINAL.as_str());
    assert_eq!(names::ERROR_TYPE, "error.type");
}

#[test]
fn header_names_are_those_of_http() {
    assert_eq!(names::CONTENT_LENGTH, http::header::CONTENT_LENGTH.as_str());
    assert_eq!(names::USER_AGENT, http::header::USER_AGENT.as_str());
}

#[test]
fn versions_are_written_as_http_writes_them() {
    assert_eq!(HttpVersion::Http09.text(), format!("{:?}", Version::HTTP_09));
    assert_eq!(HttpVersion::Http10.text(), format!("{:?}", Version::HTTP_10));
    assert_eq!(HttpVersion::Http11.text(), format!("{:?}", Version::HTTP_11));
    assert_eq!(HttpVersion::H2.text(), format!("{:?}", Version::HTTP_2));
    assert_eq!(HttpVersion::H3.text(), format!("{:?}", Version::HTTP_3));
}

#[test]
fn header_text_is_what_http_reads() {
    for b in 0u8..=255 {
        let bytes = vec![b'a', b, b'z'];
        let ours = header_text(&bytes);
        let theirs = HeaderValue::from_bytes(&bytes)
            .ok()
            .and_then(|v| v.to_str().ok().map(|s| s.to_string()));
        if HeaderValue::from_bytes(&bytes).is_ok() {
            assert_eq!(ours, theirs, "byte {}", b);
        } else {
            assert_eq!(ours, None, "byte {}", b);
        }
    }
}
