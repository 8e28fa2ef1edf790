use arpc_proxy::error::AppError;
use arpc_proxy::router::{
    resolve, resolve_route, resolve_rpc, split_first_segment, Adapter, HttpMethod,
};
use arpc_proxy::settings::{
    AuthConfig, ChainConfig, ChainEntry, NetworkConfig, ServerConfig, Settings, TestnetEntry,
};

fn network(name: &str, jsonrpc: Option<&str>, rest: Option<&str>, key: Option<&str>) -> NetworkConfig {
    NetworkConfig {
        name: name.to_string(),
        jsonrpc_url: jsonrpc.map(|s| s.to_string()),
        rest_url: rest.map(|s| s.to_string()),
        api_key: key.map(|s| s.to_string()),
    }
}

fn settings_with(chains: Vec<ChainEntry>) -> Settings {
    Settings {
        server: ServerConfig { host: "127.0.0.1".to_string(), port: 8080 },
        chains,
        auth: AuthConfig {
            enabled: false,
            client_secret: None,
            timestamp_tolerance_secs: 300,
            key_expiration_days: None,
        },
    }
}

fn jsonrpc_only_chain() -> ChainConfig {
    ChainConfig {
        name: "Json Chain".to_string(),
        mainnet: network("mainnet", Some("https://rpc.example/main"), None, None),
        testnets: vec![],
    }
}

fn mixed_chain() -> ChainConfig {
    ChainConfig {
        name: "Mixed Chain".to_string(),
        mainnet: network(
            "mainnet",
            Some("https://rpc.example/main"),
            Some("https://rest.example/main"),
            Some("MAINKEY"),
        ),
        testnets: vec![
            TestnetEntry {
                name: "testnet3".to_string(),
                network: network(
                    "testnet3",
                    Some("https://rpc.example/t3"),
                    Some("https://rest.example/t3"),
                    None,
                ),
            },
            TestnetEntry {
                name: "dead".to_string(),
                network: network("dead", None, None, None),
            },
        ],
    }
}

#[test]
fn bare_post_on_jsonrpc_only_mainnet_picks_jsonrpc() {
    let chain = "jsonchain".to_string();
    let c = jsonrpc_only_chain();
    let t = resolve_route(&chain, &c, None, HttpMethod::Post).unwrap();
    assert_eq!(t.adapter, Adapter::JsonRpc);
    assert_eq!(t.network.jsonrpc_url.as_deref(), Some("https://rpc.example/main"));
    assert_eq!(t.path, "");
}

#[test]
fn bare_non_post_without_rest_is_protocol_mismatch() {
    let chain = "jsonchain".to_string();
    let c = jsonrpc_only_chain();
    for m in [HttpMethod::Get, HttpMethod::Put, HttpMethod::Delete, HttpMethod::Patch] {
        let e = resolve_route(&chain, &c, None, m).unwrap_err();
        assert!(matches!(e, AppError::ProtocolMismatch(_)));
        assert_eq!(e.error_code(), -32002);
        assert_eq!(e.status_code(), 400);
    }
}

#[test]
fn testnet_segment_takes_precedence_over_mainnet_rest() {
    // Mainnet REST could serve a "testnet3" resource, but the declared
    // testnet name must win.
    let chain = "mixed".to_string();
    let c = mixed_chain();
    let t = resolve_route(&chain, &c, Some("testnet3/blocks/5"), HttpMethod::Get).unwrap();
    assert_eq!(t.adapter, Adapter::Rest);
    assert_eq!(t.network.rest_url.as_deref(), Some("https://rest.example/t3"));
    assert_eq!(t.path, "blocks/5");
}

#[test]
fn testnet_bare_post_picks_testnet_jsonrpc() {
    let chain = "mixed".to_string();
    let c = mixed_chain();
    let t = resolve_route(&chain, &c, Some("testnet3"), HttpMethod::Post).unwrap();
    assert_eq!(t.adapter, Adapter::JsonRpc);
    assert_eq!(t.network.jsonrpc_url.as_deref(), Some("https://rpc.example/t3"));
    assert_eq!(t.path, "");
}

#[test]
fn unmatched_segment_routes_to_mainnet_rest_with_full_path() {
    let chain = "mixed".to_string();
    let c = mixed_chain();
    let t = resolve_route(&chain, &c, Some("blocks/latest"), HttpMethod::Get).unwrap();
    assert_eq!(t.adapter, Adapter::Rest);
    assert_eq!(t.network.rest_url.as_deref(), Some("https://rest.example/main"));
    assert_eq!(t.path, "blocks/latest");
}

#[test]
fn post_with_non_empty_path_prefers_rest() {
    let chain = "mixed".to_string();
    let c = mixed_chain();
    let t = resolve_route(&chain, &c, Some("txs"), HttpMethod::Post).unwrap();
    assert_eq!(t.adapter, Adapter::Rest);
    assert_eq!(t.path, "txs");
}

#[test]
fn endpointless_testnet_is_protocol_mismatch() {
    let chain = "mixed".to_string();
    let c = mixed_chain();
    let e = resolve_route(&chain, &c, Some("dead/blocks"), HttpMethod::Get).unwrap_err();
    assert!(matches!(e, AppError::ProtocolMismatch(_)));
    assert_eq!(e.error_code(), -32002);
}

#[test]
fn unknown_chain_is_chain_not_found() {
    let s = settings_with(vec![ChainEntry { id: "mixed".to_string(), config: mixed_chain() }]);
    let e = resolve(&s, &"nochain".to_string(), None, HttpMethod::Post).unwrap_err();
    match &e {
        AppError::ChainNotFound(name) => assert_eq!(name, "nochain"),
        other => panic!("expected ChainNotFound, got {:?}", other),
    }
    assert_eq!(e.error_code(), -32001);
    assert_eq!(e.status_code(), 400);
    assert_eq!(e.message(), "Unknown chain: nochain");
}

#[test]
fn resolve_finds_registered_chain() {
    let s = settings_with(vec![
        ChainEntry { id: "jsonchain".to_string(), config: jsonrpc_only_chain() },
        ChainEntry { id: "mixed".to_string(), config: mixed_chain() },
    ]);
    let t = resolve(&s, &"mixed".to_string(), Some("testnet3/accounts"), HttpMethod::Get).unwrap();
    assert_eq!(t.adapter, Adapter::Rest);
    assert_eq!(t.path, "accounts");
}

#[test]
fn resolve_rpc_named_network() {
    let s = settings_with(vec![
        ChainEntry { id: "mixed".to_string(), config: mixed_chain() },
        ChainEntry {
            id: "restonly".to_string(),
            config: ChainConfig {
                name: "Rest Only".to_string(),
                mainnet: network("mainnet", None, Some("https://rest.example/r"), None),
                testnets: vec![],
            },
        },
    ]);
    let mainnet = resolve_rpc(&s, &"mixed".to_string(), None).unwrap();
    assert_eq!(mainnet.jsonrpc_url.as_deref(), Some("https://rpc.example/main"));

    let tn = resolve_rpc(&s, &"mixed".to_string(), Some(&"testnet3".to_string())).unwrap();
    assert_eq!(tn.jsonrpc_url.as_deref(), Some("https://rpc.example/t3"));

    let e = resolve_rpc(&s, &"mixed".to_string(), Some(&"nowhere".to_string())).unwrap_err();
    match &e {
        AppError::NetworkNotFound(name) => assert_eq!(name, "nowhere"),
        other => panic!("expected NetworkNotFound, got {:?}", other),
    }
    assert_eq!(e.error_code(), -32001);
    assert_eq!(e.message(), "Unknown network: nowhere");

    // a declared testnet without a JSON-RPC endpoint is a mismatch
    let e_dead = resolve_rpc(&s, &"mixed".to_string(), Some(&"dead".to_string())).unwrap_err();
    assert!(matches!(e_dead, AppError::ProtocolMismatch(_)));

    let e2 = resolve_rpc(&s, &"restonly".to_string(), None).unwrap_err();
    assert!(matches!(e2, AppError::ProtocolMismatch(_)));

    let e3 = resolve_rpc(&s, &"ghost".to_string(), None).unwrap_err();
    assert!(matches!(e3, AppError::ChainNotFound(_)));
}

#[test]
fn resolve_rpc_decides_per_selected_network() {
    // mainnet speaks no JSON-RPC, but the named testnet does: the
    // decision is the selected network's, so the testnet is resolved
    let s = settings_with(vec![ChainEntry {
        id: "restmain".to_string(),
        config: ChainConfig {
            name: "Rest Mainnet".to_string(),
            mainnet: network("mainnet", None, Some("https://rest.example/m"), None),
            testnets: vec![TestnetEntry {
                name: "devnet".to_string(),
                network: network("devnet", Some("https://rpc.example/dev"), None, None),
            }],
        },
    }]);
    let tn = resolve_rpc(&s, &"restmain".to_string(), Some(&"devnet".to_string())).unwrap();
    assert_eq!(tn.jsonrpc_url.as_deref(), Some("https://rpc.example/dev"));

    // the bare form still selects the mainnet, which has no endpoint
    let e = resolve_rpc(&s, &"restmain".to_string(), None).unwrap_err();
    assert!(matches!(e, AppError::ProtocolMismatch(_)));
}

#[test]
fn split_first_segment_cases() {
    assert_eq!(split_first_segment("a/b/c"), ("a", "b/c"));
    assert_eq!(split_first_segment("alone"), ("alone", ""));
    assert_eq!(split_first_segment(""), ("", ""));
    assert_eq!(split_first_segment("/lead"), ("", "lead"));
    assert_eq!(split_first_segment("tail/"), ("tail", ""));
}
