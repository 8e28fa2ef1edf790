//! REST forwarding: outbound URL composition and the per-method rules.
//!
//! The outbound URL is the network's base URL, `/` + path when the
//! adapter-specific path is non-empty, then the raw query string and — when
//! an upstream key is configured — `apikey=<key>`, joined with `&` when both
//! are present, each introduced by `?` alone otherwise. GET and DELETE
//! requests carry no body; methods outside GET/POST/PUT/DELETE/PATCH are a
//! protocol mismatch.

use vstd::prelude::*;
use vstd::string::StringExecFns;

use crate::error::AppError;
use crate::router::HttpMethod;

verus! {

/// The outbound URL for a REST request.
pub open spec fn spec_build_url(
    base: Seq<char>,
    path: Seq<char>,
    query: Option<Seq<char>>,
    key: Option<Seq<char>>,
) -> Seq<char> {
    let stem = if path.len() == 0 {
        base
    } else {
        base + seq!['/'] + path
    };
    match (query, key) {
        (Some(q), Some(k)) => stem + seq!['?'] + q + seq!['&'] + "apikey="@ + k,
        (Some(q), None) => stem + seq!['?'] + q,
        (None, Some(k)) => stem + seq!['?'] + "apikey="@ + k,
        (None, None) => stem,
    }
}

pub fn build_url(base_url: &str, path: &str, query: Option<&str>, api_key: Option<&str>) -> (r:
    String)
    ensures
        r@ == spec_build_url(
            base_url@,
            path@,
            match query {
                Some(q) => Some(q@),
                None => None,
            },
            match api_key {
                Some(k) => Some(k@),
                None => None,
            },
        ),
{
    let mut url = String::from_str(base_url);
    if !path.is_empty() {
        url.append("/");
        url.append(path);
    }
    proof {
        reveal_strlit("/");
        if path@.len() != 0 {
            assert(url@ =~= base_url@ + seq!['/'] + path@);
        }
    }
    let ghost stem = url@;
    match (query, api_key) {
        (Some(q), Some(k)) => {
            url.append("?");
            url.append(q);
            url.append("&");
            url.append("apikey=");
            url.append(k);
            proof {
                reveal_strlit("?");
                reveal_strlit("&");
                assert(url@ =~= stem + seq!['?'] + q@ + seq!['&'] + "apikey="@ + k@);
            }
        },
        (Some(q), None) => {
            url.append("?");
            url.append(q);
            proof {
                reveal_strlit("?");
                assert(url@ =~= stem + seq!['?'] + q@);
            }
        },
        (None, Some(k)) => {
            url.append("?");
            url.append("apikey=");
            url.append(k);
            proof {
                reveal_strlit("?");
                assert(url@ =~= stem + seq!['?'] + "apikey="@ + k@);
            }
        },
        (None, None) => {},
    }
    url
}

/// The methods the REST forwarder accepts.
pub open spec fn spec_rest_supported(m: HttpMethod) -> bool {
    ||| m == HttpMethod::Get
    ||| m == HttpMethod::Post
    ||| m == HttpMethod::Put
    ||| m == HttpMethod::Delete
    ||| m == HttpMethod::Patch
}

/// Whether the forwarded request carries the inbound body: GET and DELETE
/// requests are forwarded without one.
pub open spec fn spec_rest_sends_body(m: HttpMethod) -> bool {
    m != HttpMethod::Get && m != HttpMethod::Delete
}

pub open spec fn spec_method_name(m: HttpMethod) -> Seq<char> {
    match m {
        HttpMethod::Get => "GET"@,
        HttpMethod::Post => "POST"@,
        HttpMethod::Put => "PUT"@,
        HttpMethod::Delete => "DELETE"@,
        HttpMethod::Patch => "PATCH"@,
        HttpMethod::Head => "HEAD"@,
        HttpMethod::Options => "OPTIONS"@,
        HttpMethod::Other => "UNKNOWN"@,
    }
}

pub fn method_name(m: HttpMethod) -> (r: &'static str)
    ensures
        r@ == spec_method_name(m),
{
    match m {
        HttpMethod::Get => "GET",
        HttpMethod::Post => "POST",
        HttpMethod::Put => "PUT",
        HttpMethod::Delete => "DELETE",
        HttpMethod::Patch => "PATCH",
        HttpMethod::Head => "HEAD",
        HttpMethod::Options => "OPTIONS",
        HttpMethod::Other => "UNKNOWN",
    }
}

/// An outbound REST call, ready for the transport: the composed URL and
/// whether the inbound body goes with it.
#[derive(Debug, Clone)]
pub struct RestRequest {
    pub url: String,
    pub send_body: bool,
}

/// Plans the outbound REST call, or rejects the method.
pub fn plan_rest_request(
    base_url: &str,
    method: HttpMethod,
    path: &str,
    query: Option<&str>,
    api_key: Option<&str>,
) -> (r: Result<RestRequest, AppError>)
    ensures
        ({
            let q = match query {
                Some(q) => Some(q@),
                None => None,
            };
            let k = match api_key {
                Some(k) => Some(k@),
                None => None,
            };
            match r {
                Ok(req) => {
                    &&& spec_rest_supported(method)
                    &&& req.url@ == spec_build_url(base_url@, path@, q, k)
                    &&& req.send_body == spec_rest_sends_body(method)
                },
                Err(e) => !spec_rest_supported(method) && e is ProtocolMismatch,
            }
        }),
{
    match method {
        HttpMethod::Get | HttpMethod::Post | HttpMethod::Put | HttpMethod::Delete
            | HttpMethod::Patch => {
            let url = build_url(base_url, path, query, api_key);
            let send_body = !(method == HttpMethod::Get || method == HttpMethod::Delete);
            Ok(RestRequest { url, send_body })
        },
        _ => {
            let msg = String::from_str("Unsupported method: ").concat(method_name(method));
            Err(AppError::ProtocolMismatch(msg))
        },
    }
}

} // verus!
