use crystal::proxy::{parse_method, Method, ProxyError};
use crystal::state::Data;

fn connected() -> Data<u32, u32> {
    Data {
        lcu_client: Some(1),
        ws_client: Some(2),
        connected: true,
    }
}

#[test]
fn parse_method_is_case_insensitive() {
    assert_eq!(parse_method("get"), Some(Method::Get));
    assert_eq!(parse_method("GET"), Some(Method::Get));
    assert_eq!(parse_method("GeT"), Some(Method::Get));
    assert_eq!(parse_method("post"), Some(Method::Post));
    assert_eq!(parse_method("POST"), Some(Method::Post));
    assert_eq!(parse_method("put"), Some(Method::Put));
    assert_eq!(parse_method("pUt"), Some(Method::Put));
}

#[test]
fn parse_method_rejects_unsupported_verbs() {
    assert_eq!(parse_method("PATCH"), None);
    assert_eq!(parse_method("DELETE"), None);
    assert_eq!(parse_method("HEAD"), None);
    assert_eq!(parse_method(""), None);
    assert_eq!(parse_method("gett"), None);
    assert_eq!(parse_method("ge"), None);
    assert_eq!(parse_method("pos"), None);
}

#[test]
fn disconnected_request_fails_not_connected() {
    let d: Data<u32, u32> = Data::new();
    assert_eq!(d.plan_request("GET", false), Err(ProxyError::NotConnected));
    assert_eq!(d.plan_request("POST", true), Err(ProxyError::NotConnected));
    assert_eq!(d.plan_request("put", true), Err(ProxyError::NotConnected));
}

#[test]
fn patch_fails_invalid_method() {
    let d = connected();
    assert_eq!(d.plan_request("PATCH", false), Err(ProxyError::InvalidMethod));
    assert_eq!(d.plan_request("PATCH", true), Err(ProxyError::InvalidMethod));
    assert_eq!(d.plan_request("delete", true), Err(ProxyError::InvalidMethod));
}

#[test]
fn post_without_body_fails_missing_body() {
    let d = connected();
    assert_eq!(d.plan_request("POST", false), Err(ProxyError::MissingBody));
    assert_eq!(d.plan_request("put", false), Err(ProxyError::MissingBody));
}

#[test]
fn valid_requests_are_forwarded() {
    let d = connected();
    assert_eq!(d.plan_request("GET", false), Ok(Method::Get));
    assert_eq!(d.plan_request("get", true), Ok(Method::Get));
    assert_eq!(d.plan_request("POST", true), Ok(Method::Post));
    assert_eq!(d.plan_request("PUT", true), Ok(Method::Put));
}

#[test]
fn error_messages() {
    assert_eq!(
        ProxyError::NotConnected.message(),
        "Not connected to League client"
    );
    assert_eq!(ProxyError::InvalidMethod.message(), "Invalid method");
    assert_eq!(ProxyError::MissingBody.message(), "Missing request body");
    assert_eq!(
        ProxyError::RequestFailed(String::from("boom")).message(),
        "boom"
    );
}
