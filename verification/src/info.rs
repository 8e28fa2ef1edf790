//! The introspection payloads: the `/chains` listing and the `/health`
//! report.

use vstd::prelude::*;
use vstd::string::StringExecFns;

use crate::settings::NetworkConfig;
use crate::settings::Settings;

verus! {

/// One entry of the `/chains` listing.
#[derive(Debug, Clone)]
pub struct ChainInfo {
    pub id: String,
    pub name: String,
    pub protocols: Vec<String>,
}

/// The protocols a chain's mainnet speaks, `jsonrpc` before `rest`.
pub open spec fn spec_protocols(n: NetworkConfig) -> Seq<Seq<char>> {
    if n.spec_has_jsonrpc() && n.spec_has_rest() {
        seq!["jsonrpc"@, "rest"@]
    } else if n.spec_has_jsonrpc() {
        seq!["jsonrpc"@]
    } else if n.spec_has_rest() {
        seq!["rest"@]
    } else {
        Seq::empty()
    }
}

pub fn protocol_names(n: &NetworkConfig) -> (r: Vec<String>)
    ensures
        r.deep_view() == spec_protocols(*n),
{
    let mut v: Vec<String> = Vec::new();
    if n.has_jsonrpc() {
        v.push(String::from_str("jsonrpc"));
    }
    if n.has_rest() {
        v.push(String::from_str("rest"));
    }
    proof {
        assert(v.deep_view() =~= spec_protocols(*n));
    }
    v
}

/// The `/chains` listing: every registered chain with its display name and
/// its mainnet's protocols, in registry order.
pub fn chain_infos(settings: &Settings) -> (r: Vec<ChainInfo>)
    ensures
        r@.len() == settings.chains@.len(),
        forall|i: int| #![auto]
            0 <= i < r@.len() ==> {
                &&& r@[i].id@ == settings.chains@[i].id@
                &&& r@[i].name@ == settings.chains@[i].config.name@
                &&& r@[i].protocols.deep_view() == spec_protocols(settings.chains@[i].config.mainnet)
            },
{
    let n = settings.chains.len();
    let mut infos: Vec<ChainInfo> = Vec::new();
    let mut i: usize = 0;
    while i < n
        invariant
            0 <= i <= n,
            n == settings.chains@.len(),
            infos@.len() == i,
            forall|j: int| #![auto]
                0 <= j < i ==> {
                    &&& infos@[j].id@ == settings.chains@[j].id@
                    &&& infos@[j].name@ == settings.chains@[j].config.name@
                    &&& infos@[j].protocols.deep_view() == spec_protocols(
                        settings.chains@[j].config.mainnet,
                    )
                },
        decreases n - i,
    {
        let entry = &settings.chains[i];
        let info = ChainInfo {
            id: entry.id.clone(),
            name: entry.config.name.clone(),
            protocols: protocol_names(&entry.config.mainnet),
        };
        infos.push(info);
        i = i + 1;
    }
    infos
}

/// The `/health` payload.
#[derive(Debug, Clone)]
pub struct HealthResponse {
    pub status: String,
    pub version: String,
    pub supported_chains: Vec<String>,
}

impl HealthResponse {
    /// Status `ok`, the given version, and the registered chain ids.
    pub fn new(version: String, settings: &Settings) -> (r: HealthResponse)
        ensures
            r.status@ == "ok"@,
            r.version == version,
            r.supported_chains@.len() == settings.chains@.len(),
            forall|i: int| #![auto]
                0 <= i < r.supported_chains@.len() ==> r.supported_chains@[i]@
                    == settings.chains@[i].id@,
    {
        HealthResponse {
            status: String::from_str("ok"),
            version,
            supported_chains: settings.supported_chains(),
        }
    }
}

} // verus!
