use arpc_proxy::error::AppError;
use arpc_proxy::rest::{build_url, method_name, plan_rest_request};
use arpc_proxy::router::HttpMethod;

#[test]
fn url_with_path_query_and_key() {
    let url = build_url("https://x/v1", "a/b", Some("foo=1"), Some("K"));
    assert_eq!(url, "https://x/v1/a/b?foo=1&apikey=K");
}

#[test]
fn url_with_path_and_key_only() {
    let url = build_url("https://x/v1", "a/b", None, Some("K"));
    assert_eq!(url, "https://x/v1/a/b?apikey=K");
}

#[test]
fn url_with_empty_path_and_key() {
    let url = build_url("https://x/v1", "", None, Some("K"));
    assert_eq!(url, "https://x/v1?apikey=K");
}

#[test]
fn url_with_query_only() {
    let url = build_url("https://x/v1", "a", Some("foo=1&bar=2"), None);
    assert_eq!(url, "https://x/v1/a?foo=1&bar=2");
}

#[test]
fn url_bare() {
    let url = build_url("https://x/v1", "", None, None);
    assert_eq!(url, "https://x/v1");
}

#[test]
fn plan_get_sends_no_body() {
    let plan = plan_rest_request("https://x/v1", HttpMethod::Get, "a", Some("q=1"), None).unwrap();
    assert_eq!(plan.url, "https://x/v1/a?q=1");
    assert!(!plan.send_body);
}

#[test]
fn plan_delete_sends_no_body() {
    let plan = plan_rest_request("https://x/v1", HttpMethod::Delete, "a/1", None, None).unwrap();
    assert!(!plan.send_body);
}

#[test]
fn plan_post_put_patch_send_body() {
    for m in [HttpMethod::Post, HttpMethod::Put, HttpMethod::Patch] {
        let plan = plan_rest_request("https://x/v1", m, "a", None, Some("K")).unwrap();
        assert_eq!(plan.url, "https://x/v1/a?apikey=K");
        assert!(plan.send_body);
    }
}

#[test]
fn plan_rejects_unsupported_methods() {
    for m in [HttpMethod::Head, HttpMethod::Options, HttpMethod::Other] {
        let e = plan_rest_request("https://x/v1", m, "a", None, None).unwrap_err();
        assert!(matches!(e, AppError::ProtocolMismatch(_)));
        assert_eq!(e.error_code(), -32002);
    }
}

#[test]
fn method_names_render() {
    assert_eq!(method_name(HttpMethod::Get), "GET");
    assert_eq!(method_name(HttpMethod::Post), "POST");
    assert_eq!(method_name(HttpMethod::Head), "HEAD");
}
