//! Route resolution: an inbound (chain, optional sub-path, method) resolves
//! to a network and a protocol adapter, or to a typed failure.
//!
//! A sub-path whose first segment names a declared testnet always routes to
//! that testnet, with the remaining path as the adapter-specific path; this
//! deliberately takes precedence over reading the segment as a mainnet REST
//! resource. On the selected network, a POST with an empty adapter-specific
//! path prefers the JSON-RPC endpoint; otherwise the REST endpoint is used;
//! a network offering neither is a protocol mismatch.

use vstd::prelude::*;
use vstd::string::StrSliceExecFns;
use vstd::string::StringExecFns;

use crate::error::AppError;
use crate::settings::ChainConfig;
use crate::settings::NetworkConfig;
use crate::settings::Settings;
use crate::settings::lookup_chain;
use crate::settings::lookup_testnet;

verus! {

#[derive(PartialEq, Eq, Structural, Clone, Copy, Debug)]
pub enum HttpMethod {
    Get,
    Post,
    Put,
    Delete,
    Patch,
    Head,
    Options,
    Other,
}

#[derive(PartialEq, Eq, Structural, Clone, Copy, Debug)]
pub enum Adapter {
    JsonRpc,
    Rest,
}

/// Index of the first `/` in `s`, or `s.len()` if none occurs.
pub open spec fn first_slash(s: Seq<char>) -> int
    decreases s.len(),
{
    if s.len() == 0 {
        0
    } else if s[0] == '/' {
        0
    } else {
        1 + first_slash(s.drop_first())
    }
}

pub proof fn lemma_first_slash(s: Seq<char>)
    ensures
        0 <= first_slash(s) <= s.len(),
        forall|j: int| 0 <= j < first_slash(s) ==> s[j] != '/',
        first_slash(s) < s.len() ==> s[first_slash(s)] == '/',
    decreases s.len(),
{
    if s.len() == 0 {
    } else if s[0] == '/' {
    } else {
        lemma_first_slash(s.drop_first());
        assert forall|j: int| 0 <= j < first_slash(s) implies s[j] != '/' by {
            if j > 0 {
                assert(s.drop_first()[j - 1] == s[j]);
                assert(s.drop_first()[j - 1] != '/');
            }
        }
    }
}

/// What precedes the first `/` of the sub-path.
pub open spec fn first_segment(s: Seq<char>) -> Seq<char> {
    s.take(first_slash(s))
}

/// What follows the first `/` of the sub-path; empty if there is none.
pub open spec fn tail_after_segment(s: Seq<char>) -> Seq<char> {
    if first_slash(s) < s.len() {
        s.skip(first_slash(s) + 1)
    } else {
        Seq::empty()
    }
}

/// Splits a sub-path at its first `/` into the leading segment and the rest.
pub fn split_first_segment<'a>(path: &'a str) -> (r: (&'a str, &'a str))
    ensures
        r.0@ == first_segment(path@),
        r.1@ == tail_after_segment(path@),
{
    let n = path.unicode_len();
    let mut i: usize = 0;
    proof {
        lemma_first_slash(path@);
    }
    while i < n
        invariant
            0 <= i <= n,
            n == path@.len(),
            forall|j: int| 0 <= j < i ==> path@[j] != '/',
            0 <= first_slash(path@) <= path@.len(),
            forall|j: int| 0 <= j < first_slash(path@) ==> path@[j] != '/',
            first_slash(path@) < path@.len() ==> path@[first_slash(path@)] == '/',
        decreases n - i,
    {
        if path.get_char(i) == '/' {
            proof {
                assert(first_slash(path@) == i);
            }
            let seg = path.substring_char(0, i);
            let rest = path.substring_char(i + 1, n);
            proof {
                assert(seg@ =~= first_segment(path@));
                assert(rest@ =~= tail_after_segment(path@));
            }
            return (seg, rest);
        }
        i = i + 1;
    }
    proof {
        assert(first_slash(path@) == n);
    }
    let seg = path.substring_char(0, n);
    let rest = path.substring_char(n, n);
    proof {
        assert(seg@ =~= first_segment(path@));
        assert(rest@ =~= tail_after_segment(path@));
    }
    (seg, rest)
}

/// Whether the sub-path's first segment names a declared testnet.
pub open spec fn testnet_routed(c: ChainConfig, path: Seq<char>) -> bool {
    lookup_testnet(c.testnets@, first_segment(path)) is Some
}

/// The network a request is routed to: with no sub-path, the mainnet; with
/// one, the testnet its first segment names, or else the mainnet.
pub open spec fn route_network(c: ChainConfig, path: Option<Seq<char>>) -> NetworkConfig {
    match path {
        None => c.mainnet,
        Some(p) => if testnet_routed(c, p) {
            lookup_testnet(c.testnets@, first_segment(p))->Some_0
        } else {
            c.mainnet
        },
    }
}

/// The adapter-specific path: the sub-path, with the matched testnet
/// segment stripped when one was matched.
pub open spec fn route_path(c: ChainConfig, path: Option<Seq<char>>) -> Seq<char> {
    match path {
        None => Seq::empty(),
        Some(p) => if testnet_routed(c, p) {
            tail_after_segment(p)
        } else {
            p
        },
    }
}

/// Protocol precedence on the selected network: a POST with an empty
/// adapter-specific path takes the JSON-RPC endpoint if there is one;
/// otherwise the REST endpoint if there is one; otherwise nothing fits.
pub open spec fn chosen_adapter(n: NetworkConfig, apath: Seq<char>, m: HttpMethod) -> Option<
    Adapter,
> {
    if m == HttpMethod::Post && apath.len() == 0 && n.spec_has_jsonrpc() {
        Some(Adapter::JsonRpc)
    } else if n.spec_has_rest() {
        Some(Adapter::Rest)
    } else {
        None
    }
}

/// A resolved request: the selected network, the adapter to forward
/// through, and the adapter-specific path (empty under JSON-RPC).
#[derive(Debug)]
pub struct RouteTarget<'a> {
    pub network: &'a NetworkConfig,
    pub adapter: Adapter,
    pub path: String,
}

fn pick_adapter<'a>(network: &'a NetworkConfig, apath: String, method: HttpMethod, mismatch_msg: String) -> (r:
    Result<RouteTarget<'a>, AppError>)
    ensures
        match r {
            Ok(t) => t.network == network && Some(t.adapter) == chosen_adapter(
                *network,
                apath@,
                method,
            ) && t.path@ == apath@,
            Err(e) => chosen_adapter(*network, apath@, method) is None && match e {
                AppError::ProtocolMismatch(m) => m@ == mismatch_msg@,
                _ => false,
            },
        },
{
    if method == HttpMethod::Post && apath.as_str().is_empty() && network.has_jsonrpc() {
        Ok(RouteTarget { network, adapter: Adapter::JsonRpc, path: apath })
    } else if network.has_rest() {
        Ok(RouteTarget { network, adapter: Adapter::Rest, path: apath })
    } else {
        Err(AppError::ProtocolMismatch(mismatch_msg))
    }
}

/// Resolves a request against one chain, per the precedence rules above.
/// `sub_path` of `None` is the bare `/{chain}` route.
pub fn resolve_route<'a>(
    chain: &String,
    c: &'a ChainConfig,
    sub_path: Option<&str>,
    method: HttpMethod,
) -> (r: Result<RouteTarget<'a>, AppError>)
    ensures
        ({
            let p = match sub_path {
                None => None,
                Some(s) => Some(s@),
            };
            match r {
                Ok(t) => {
                    &&& *t.network == route_network(*c, p)
                    &&& Some(t.adapter) == chosen_adapter(
                        route_network(*c, p),
                        route_path(*c, p),
                        method,
                    )
                    &&& t.path@ == route_path(*c, p)
                },
                Err(e) => chosen_adapter(route_network(*c, p), route_path(*c, p), method) is None
                    && e is ProtocolMismatch,
            }
        }),
{
    match sub_path {
        None => {
            let msg = String::from_str("Chain '").concat(chain.as_str()).concat(
                "' mainnet has no supported endpoints",
            );
            let empty = String::new();
            proof {
                assert(empty@ =~= route_path(*c, None));
            }
            pick_adapter(&c.mainnet, empty, method, msg)
        },
        Some(p) => {
            let (seg, rest) = split_first_segment(p);
            let seg_string = String::from_str(seg);
            match c.find_testnet(&seg_string) {
                Some(tn) => {
                    let msg = String::from_str("Network '").concat(seg).concat(
                        "' has no supported endpoints for this request",
                    );
                    pick_adapter(tn, String::from_str(rest), method, msg)
                },
                None => {
                    let msg = String::from_str("Chain '").concat(chain.as_str()).concat(
                        "' mainnet has no supported endpoints",
                    );
                    pick_adapter(&c.mainnet, String::from_str(p), method, msg)
                },
            }
        },
    }
}

/// Resolves a request against the whole registry: an unknown chain fails
/// with `ChainNotFound`; a known one follows `resolve_route`.
pub fn resolve<'a>(
    settings: &'a Settings,
    chain: &String,
    sub_path: Option<&str>,
    method: HttpMethod,
) -> (r: Result<RouteTarget<'a>, AppError>)
    ensures
        ({
            let p = match sub_path {
                None => None,
                Some(s) => Some(s@),
            };
            match lookup_chain(settings.chains@, chain@) {
                None => match r {
                    Err(AppError::ChainNotFound(s)) => s@ == chain@,
                    _ => false,
                },
                Some(c) => match r {
                    Ok(t) => {
                        &&& *t.network == route_network(c, p)
                        &&& Some(t.adapter) == chosen_adapter(
                            route_network(c, p),
                            route_path(c, p),
                            method,
                        )
                        &&& t.path@ == route_path(c, p)
                    },
                    Err(e) => chosen_adapter(route_network(c, p), route_path(c, p), method) is None
                        && e is ProtocolMismatch,
                },
            }
        }),
{
    match settings.get_chain(chain) {
        None => Err(AppError::ChainNotFound(chain.clone())),
        Some(c) => resolve_route(chain, c, sub_path, method),
    }
}

/// Resolves the explicit JSON-RPC form, where the network is named rather
/// than carried on the path: the chain must exist, the network — mainnet
/// when none is named — must be declared, and the protocol decision is
/// the selected network's own: it must offer a JSON-RPC endpoint.
pub fn resolve_rpc<'a>(
    settings: &'a Settings,
    chain: &String,
    network: Option<&String>,
) -> (r: Result<&'a NetworkConfig, AppError>)
    ensures
        match lookup_chain(settings.chains@, chain@) {
            None => match r {
                Err(AppError::ChainNotFound(s)) => s@ == chain@,
                _ => false,
            },
            Some(c) => match network {
                None => if c.mainnet.spec_has_jsonrpc() {
                    match r {
                        Ok(n) => *n == c.mainnet,
                        _ => false,
                    }
                } else {
                    match r {
                        Err(e) => e is ProtocolMismatch,
                        _ => false,
                    }
                },
                Some(name) => match lookup_testnet(c.testnets@, name@) {
                    None => match r {
                        Err(AppError::NetworkNotFound(s)) => s@ == name@,
                        _ => false,
                    },
                    Some(tn) => if tn.spec_has_jsonrpc() {
                        match r {
                            Ok(n) => *n == tn,
                            _ => false,
                        }
                    } else {
                        match r {
                            Err(e) => e is ProtocolMismatch,
                            _ => false,
                        }
                    },
                },
            },
        },
{
    match settings.get_chain(chain) {
        None => Err(AppError::ChainNotFound(chain.clone())),
        Some(c) => match network {
            None => {
                if c.mainnet.has_jsonrpc() {
                    Ok(&c.mainnet)
                } else {
                    let msg = String::from_str("Chain '").concat(chain.as_str()).concat(
                        "' mainnet has no JSON-RPC endpoint",
                    );
                    Err(AppError::ProtocolMismatch(msg))
                }
            },
            Some(name) => match c.find_testnet(name) {
                None => Err(AppError::NetworkNotFound(name.clone())),
                Some(tn) => {
                    if tn.has_jsonrpc() {
                        Ok(tn)
                    } else {
                        let msg = String::from_str("Network '").concat(name.as_str()).concat(
                            "' has no JSON-RPC endpoint",
                        );
                        Err(AppError::ProtocolMismatch(msg))
                    }
                },
            },
        },
    }
}

/// For a chain whose mainnet speaks only JSON-RPC, a bare request resolves
/// to the JSON-RPC adapter exactly when the method is POST; any other
/// method finds no adapter and is a protocol mismatch.
pub proof fn lemma_bare_jsonrpc_only(c: ChainConfig, m: HttpMethod)
    requires
        c.mainnet.spec_has_jsonrpc(),
        !c.mainnet.spec_has_rest(),
    ensures
        chosen_adapter(route_network(c, None), route_path(c, None), m) == if m == HttpMethod::Post {
            Some(Adapter::JsonRpc)
        } else {
            None::<Adapter>
        },
{
}

/// A sub-path whose first segment names a declared testnet routes to that
/// testnet with the rest of the sub-path, whatever endpoints the mainnet
/// offers under the same name.
pub proof fn lemma_testnet_precedence(c: ChainConfig, path: Seq<char>)
    requires
        lookup_testnet(c.testnets@, first_segment(path)) is Some,
    ensures
        route_network(c, Some(path)) == lookup_testnet(c.testnets@, first_segment(path))->Some_0,
        route_path(c, Some(path)) == tail_after_segment(path),
{
}

} // verus!
