use arpc_proxy::decimal::{i64_to_dec, u64_to_dec};
use arpc_proxy::error::AppError;
use arpc_proxy::info::{chain_infos, protocol_names, HealthResponse};
use arpc_proxy::settings::{
    AuthConfig, ChainConfig, ChainEntry, NetworkConfig, ServerConfig, Settings, TestnetEntry,
};

fn network(jsonrpc: Option<&str>, rest: Option<&str>) -> NetworkConfig {
    NetworkConfig {
        name: "net".to_string(),
        jsonrpc_url: jsonrpc.map(|s| s.to_string()),
        rest_url: rest.map(|s| s.to_string()),
        api_key: None,
    }
}

fn sample_settings() -> Settings {
    Settings {
        server: ServerConfig { host: "0.0.0.0".to_string(), port: 3000 },
        chains: vec![
            ChainEntry {
                id: "alpha".to_string(),
                config: ChainConfig {
                    name: "Alpha".to_string(),
                    mainnet: network(Some("https://rpc.a"), Some("https://rest.a")),
                    testnets: vec![TestnetEntry {
                        name: "alphatest".to_string(),
                        network: network(Some("https://rpc.at"), None),
                    }],
                },
            },
            ChainEntry {
                id: "beta".to_string(),
                config: ChainConfig {
                    name: "Beta".to_string(),
                    mainnet: network(None, Some("https://rest.b")),
                    testnets: vec![],
                },
            },
        ],
        auth: AuthConfig {
            enabled: false,
            client_secret: None,
            timestamp_tolerance_secs: 300,
            key_expiration_days: None,
        },
    }
}

#[test]
fn decimal_rendering() {
    assert_eq!(u64_to_dec(0), "0");
    assert_eq!(u64_to_dec(7), "7");
    assert_eq!(u64_to_dec(1234567890), "1234567890");
    assert_eq!(u64_to_dec(u64::MAX), "18446744073709551615");
    assert_eq!(i64_to_dec(0), "0");
    assert_eq!(i64_to_dec(-1), "-1");
    assert_eq!(i64_to_dec(1_700_000_000), "1700000000");
    assert_eq!(i64_to_dec(i64::MIN), "-9223372036854775808");
    assert_eq!(i64_to_dec(i64::MAX), "9223372036854775807");
}

#[test]
fn server_addr_formats_host_and_port() {
    let s = sample_settings();
    assert_eq!(s.server_addr(), "0.0.0.0:3000");
}

#[test]
fn supported_chains_lists_ids_in_order() {
    let s = sample_settings();
    assert_eq!(s.supported_chains(), vec!["alpha".to_string(), "beta".to_string()]);
}

#[test]
fn get_chain_and_networks() {
    let s = sample_settings();
    let alpha = s.get_chain(&"alpha".to_string()).unwrap();
    assert_eq!(alpha.name, "Alpha");
    assert!(alpha.mainnet.has_jsonrpc());
    assert!(s.get_chain(&"gamma".to_string()).is_none());

    // None picks the mainnet, Some a declared testnet
    let mainnet = alpha.get_network(None).unwrap();
    assert_eq!(mainnet.jsonrpc_url.as_deref(), Some("https://rpc.a"));
    let tn = alpha.get_network(Some(&"alphatest".to_string())).unwrap();
    assert_eq!(tn.jsonrpc_url.as_deref(), Some("https://rpc.at"));
    assert!(alpha.get_network(Some(&"nope".to_string())).is_none());

    let beta = s.get_chain(&"beta".to_string()).unwrap();
    assert!(beta.mainnet.has_rest());
    assert!(!beta.mainnet.has_jsonrpc());
}

#[test]
fn protocol_names_cover_all_shapes() {
    assert_eq!(
        protocol_names(&network(Some("j"), Some("r"))),
        vec!["jsonrpc".to_string(), "rest".to_string()]
    );
    assert_eq!(protocol_names(&network(Some("j"), None)), vec!["jsonrpc".to_string()]);
    assert_eq!(protocol_names(&network(None, Some("r"))), vec!["rest".to_string()]);
    assert!(protocol_names(&network(None, None)).is_empty());
}

#[test]
fn chain_listing() {
    let s = sample_settings();
    let infos = chain_infos(&s);
    assert_eq!(infos.len(), 2);
    assert_eq!(infos[0].id, "alpha");
    assert_eq!(infos[0].name, "Alpha");
    assert_eq!(infos[0].protocols, vec!["jsonrpc".to_string(), "rest".to_string()]);
    assert_eq!(infos[1].id, "beta");
    assert_eq!(infos[1].protocols, vec!["rest".to_string()]);
}

#[test]
fn health_payload() {
    let s = sample_settings();
    let h = HealthResponse::new("1.2.3".to_string(), &s);
    assert_eq!(h.status, "ok");
    assert_eq!(h.version, "1.2.3");
    assert_eq!(h.supported_chains, vec!["alpha".to_string(), "beta".to_string()]);
}

#[test]
fn app_error_taxonomy() {
    let cases: Vec<(AppError, i64, u16, &str)> = vec![
        (AppError::ChainNotFound("x".to_string()), -32001, 400, "Unknown chain: x"),
        (AppError::NetworkNotFound("n".to_string()), -32001, 400, "Unknown network: n"),
        (AppError::ProtocolMismatch("p".to_string()), -32002, 400, "Protocol mismatch: p"),
        (AppError::ProviderError("boom".to_string()), -32603, 502, "Provider error: boom"),
        (AppError::ParseError("bad".to_string()), -32700, 400, "Parse error: bad"),
    ];
    for (e, code, status, msg) in cases {
        assert_eq!(e.error_code(), code);
        assert_eq!(e.status_code(), status);
        assert_eq!(e.message(), msg);
    }
}
