//! Gateway configuration: the chain registry (chain -> mainnet + testnets,
//! each network with optional JSON-RPC / REST endpoints and an optional
//! upstream key), the listen address, and the authentication settings.
//!
//! The registry is loaded once at startup and never mutated afterwards;
//! lookups resolve a name to the first entry carrying it.

use vstd::prelude::*;
use vstd::string::StringExecFns;

use crate::decimal::dec_rep;
use crate::decimal::u64_to_dec;

verus! {

/// Address the gateway itself listens on.
#[derive(Debug, Clone)]
pub struct ServerConfig {
    pub host: String,
    pub port: u16,
}

/// One upstream network. A network may speak JSON-RPC, REST, or both; a
/// network with neither endpoint cannot serve any request and resolves to a
/// protocol-mismatch failure.
#[derive(Debug, Clone)]
pub struct NetworkConfig {
    pub name: String,
    pub jsonrpc_url: Option<String>,
    pub rest_url: Option<String>,
    pub api_key: Option<String>,
}

impl NetworkConfig {
    pub open spec fn spec_has_jsonrpc(self) -> bool {
        self.jsonrpc_url is Some
    }

    pub open spec fn spec_has_rest(self) -> bool {
        self.rest_url is Some
    }

    pub fn has_jsonrpc(&self) -> (r: bool)
        ensures
            r == self.spec_has_jsonrpc(),
    {
        self.jsonrpc_url.is_some()
    }

    pub fn has_rest(&self) -> (r: bool)
        ensures
            r == self.spec_has_rest(),
    {
        self.rest_url.is_some()
    }
}

/// A named testnet of a chain.
#[derive(Debug, Clone)]
pub struct TestnetEntry {
    pub name: String,
    pub network: NetworkConfig,
}

/// First entry of `s` whose name reads `name`, if any.
pub open spec fn lookup_testnet(s: Seq<TestnetEntry>, name: Seq<char>) -> Option<NetworkConfig>
    decreases s.len(),
{
    if s.len() == 0 {
        None
    } else if s[0].name@ == name {
        Some(s[0].network)
    } else {
        lookup_testnet(s.drop_first(), name)
    }
}

/// One chain: a display name, its mainnet, and its declared testnets.
#[derive(Debug, Clone)]
pub struct ChainConfig {
    pub name: String,
    pub mainnet: NetworkConfig,
    pub testnets: Vec<TestnetEntry>,
}

impl ChainConfig {
    /// The testnet declared under `name`, if any.
    pub fn find_testnet(&self, name: &String) -> (r: Option<&NetworkConfig>)
        ensures
            match r {
                Some(n) => lookup_testnet(self.testnets@, name@) == Some(*n),
                None => lookup_testnet(self.testnets@, name@) is None,
            },
    {
        let n = self.testnets.len();
        let mut i: usize = 0;
        proof {
            assert(self.testnets@.skip(0) =~= self.testnets@);
        }
        while i < n
            invariant
                0 <= i <= n,
                n == self.testnets@.len(),
                lookup_testnet(self.testnets@, name@) == lookup_testnet(
                    self.testnets@.skip(i as int),
                    name@,
                ),
            decreases n - i,
        {
            let entry = &self.testnets[i];
            if entry.name == *name {
                proof {
                    assert(self.testnets@.skip(i as int)[0] == self.testnets@[i as int]);
                }
                return Some(&entry.network);
            }
            proof {
                assert(self.testnets@.skip(i as int).drop_first() =~= self.testnets@.skip(
                    i as int + 1,
                ));
            }
            i = i + 1;
        }
        proof {
            assert(self.testnets@.skip(n as int) =~= Seq::<TestnetEntry>::empty());
        }
        None
    }

    /// `None` selects the mainnet; `Some(name)` selects the testnet declared
    /// under that name.
    pub fn get_network(&self, network: Option<&String>) -> (r: Option<&NetworkConfig>)
        ensures
            match network {
                None => r == Some(&self.mainnet),
                Some(n) => match r {
                    Some(nc) => lookup_testnet(self.testnets@, n@) == Some(*nc),
                    None => lookup_testnet(self.testnets@, n@) is None,
                },
            },
    {
        match network {
            None => Some(&self.mainnet),
            Some(net) => self.find_testnet(net),
        }
    }

    /// The registry invariant: testnet names are unique within a chain.
    pub open spec fn wf(self) -> bool {
        forall|i: int, j: int|
            0 <= i < j < self.testnets@.len() ==> self.testnets@[i].name@
                != self.testnets@[j].name@
    }

    /// In a well-formed chain a declared testnet is found under its own
    /// name: the lookup yields that very entry's network, not some other
    /// match.
    pub proof fn lemma_wf_testnet_lookup(self, i: int)
        requires
            self.wf(),
            0 <= i < self.testnets@.len(),
        ensures
            lookup_testnet(self.testnets@, self.testnets@[i].name@) == Some(
                self.testnets@[i].network,
            ),
    {
        lemma_unique_testnet_lookup(self.testnets@, i);
    }
}

proof fn lemma_unique_testnet_lookup(s: Seq<TestnetEntry>, i: int)
    requires
        forall|p: int, q: int| 0 <= p < q < s.len() ==> s[p].name@ != s[q].name@,
        0 <= i < s.len(),
    ensures
        lookup_testnet(s, s[i].name@) == Some(s[i].network),
    decreases s.len(),
{
    if i > 0 {
        assert forall|p: int, q: int|
            0 <= p < q < s.drop_first().len() implies s.drop_first()[p].name@
            != s.drop_first()[q].name@ by {
            assert(s.drop_first()[p] == s[p + 1]);
            assert(s.drop_first()[q] == s[q + 1]);
        }
        lemma_unique_testnet_lookup(s.drop_first(), i - 1);
        assert(s.drop_first()[i - 1] == s[i]);
        assert(s[0].name@ != s[i].name@);
    }
}

/// A chain registered under its identifier.
#[derive(Debug, Clone)]
pub struct ChainEntry {
    pub id: String,
    pub config: ChainConfig,
}

/// First entry of `s` registered under `id`, if any.
pub open spec fn lookup_chain(s: Seq<ChainEntry>, id: Seq<char>) -> Option<ChainConfig>
    decreases s.len(),
{
    if s.len() == 0 {
        None
    } else if s[0].id@ == id {
        Some(s[0].config)
    } else {
        lookup_chain(s.drop_first(), id)
    }
}

/// Authentication settings: when a client secret is configured, registration
/// requests must carry a timestamp within the tolerance and a keyed-hash
/// signature; issued keys expire after the configured number of days, or
/// never when none is configured.
#[derive(Debug, Clone)]
pub struct AuthConfig {
    pub enabled: bool,
    pub client_secret: Option<String>,
    pub timestamp_tolerance_secs: i64,
    pub key_expiration_days: Option<i64>,
}

/// The whole gateway configuration, read-only after startup.
#[derive(Debug, Clone)]
pub struct Settings {
    pub server: ServerConfig,
    pub chains: Vec<ChainEntry>,
    pub auth: AuthConfig,
}

proof fn lemma_unique_chain_lookup(s: Seq<ChainEntry>, i: int)
    requires
        forall|p: int, q: int| 0 <= p < q < s.len() ==> s[p].id@ != s[q].id@,
        0 <= i < s.len(),
    ensures
        lookup_chain(s, s[i].id@) == Some(s[i].config),
    decreases s.len(),
{
    if i > 0 {
        assert forall|p: int, q: int|
            0 <= p < q < s.drop_first().len() implies s.drop_first()[p].id@
            != s.drop_first()[q].id@ by {
            assert(s.drop_first()[p] == s[p + 1]);
            assert(s.drop_first()[q] == s[q + 1]);
        }
        lemma_unique_chain_lookup(s.drop_first(), i - 1);
        assert(s.drop_first()[i - 1] == s[i]);
        assert(s[0].id@ != s[i].id@);
    }
}

impl Settings {
    /// The registry invariant: chain identifiers are unique, and each
    /// chain is itself well-formed.
    pub open spec fn wf(self) -> bool {
        &&& forall|i: int, j: int|
            0 <= i < j < self.chains@.len() ==> self.chains@[i].id@ != self.chains@[j].id@
        &&& forall|i: int| 0 <= i < self.chains@.len() ==> (#[trigger] self.chains@[i].config).wf()
    }

    /// The chain registered under `chain_id`, if any.
    pub fn get_chain(&self, chain_id: &String) -> (r: Option<&ChainConfig>)
        ensures
            match r {
                Some(c) => lookup_chain(self.chains@, chain_id@) == Some(*c),
                None => lookup_chain(self.chains@, chain_id@) is None,
            },
    {
        let n = self.chains.len();
        let mut i: usize = 0;
        proof {
            assert(self.chains@.skip(0) =~= self.chains@);
        }
        while i < n
            invariant
                0 <= i <= n,
                n == self.chains@.len(),
                lookup_chain(self.chains@, chain_id@) == lookup_chain(
                    self.chains@.skip(i as int),
                    chain_id@,
                ),
            decreases n - i,
        {
            let entry = &self.chains[i];
            if entry.id == *chain_id {
                proof {
                    assert(self.chains@.skip(i as int)[0] == self.chains@[i as int]);
                }
                return Some(&entry.config);
            }
            proof {
                assert(self.chains@.skip(i as int).drop_first() =~= self.chains@.skip(i as int + 1));
            }
            i = i + 1;
        }
        proof {
            assert(self.chains@.skip(n as int) =~= Seq::<ChainEntry>::empty());
        }
        None
    }

    /// The identifiers of every registered chain, in registry order.
    pub fn supported_chains(&self) -> (r: Vec<String>)
        ensures
            r@.len() == self.chains@.len(),
            forall|i: int| 0 <= i < r@.len() ==> r@[i]@ == self.chains@[i].id@,
    {
        let n = self.chains.len();
        let mut ids: Vec<String> = Vec::new();
        let mut i: usize = 0;
        while i < n
            invariant
                0 <= i <= n,
                n == self.chains@.len(),
                ids@.len() == i,
                forall|j: int| 0 <= j < i ==> ids@[j]@ == self.chains@[j].id@,
            decreases n - i,
        {
            ids.push(self.chains[i].id.clone());
            i = i + 1;
        }
        ids
    }

    /// In a well-formed registry a chain is found under its own id: the
    /// lookup yields that very entry's configuration.
    pub proof fn lemma_wf_chain_lookup(self, i: int)
        requires
            self.wf(),
            0 <= i < self.chains@.len(),
        ensures
            lookup_chain(self.chains@, self.chains@[i].id@) == Some(self.chains@[i].config),
    {
        lemma_unique_chain_lookup(self.chains@, i);
    }

    /// The socket address the server binds, written `host:port`.
    pub fn server_addr(&self) -> (r: String)
        ensures
            r@ == self.server.host@ + seq![':'] + dec_rep(self.server.port as nat),
    {
        let mut s = self.server.host.clone();
        s.append(":");
        let p = u64_to_dec(self.server.port as u64);
        s.append(p.as_str());
        proof {
            reveal_strlit(":");
            assert(s@ =~= self.server.host@ + seq![':'] + dec_rep(self.server.port as nat));
        }
        s
    }
}

} // verus!
