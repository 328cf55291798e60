//! The settings of the gateway, their defaults, and the allowlist of capabilities.

use crate::endpoint::Endpoint;
use vstd::prelude::*;

verus! {

/// The number of idle connections kept per upstream host unless configured.
pub fn default_connections_per_host() -> (limit: usize)
    ensures
        limit == 100,
{
    100
}

/// The time in seconds an upstream call may take unless configured.
pub fn default_timeout() -> (secs: u64)
    ensures
        secs == 10,
{
    10
}

/// The address of the upstream unless configured.
pub fn default_motis_address() -> (address: String)
    ensures
        address@ == "http://localhost:8080"@,
{
    "http://localhost:8080".to_owned()
}

/// Whether paths other than `/` are proxied unless configured.
pub fn default_proxy_assets() -> (enabled: bool)
    ensures
        !enabled,
{
    false
}

/// The allowlist unless configured: none, so that every capability is permitted.
pub fn default_allowed_endpoints() -> (allowlist: Option<Vec<Endpoint>>)
    ensures
        allowlist is None,
{
    None
}

/// The quota of routing searches per identity and window unless configured.
pub fn default_routes_per_minute_limit() -> (quota: u16)
    ensures
        quota == 20,
{
    20
}

/// The number of identities the rate limiter tracks at a time unless configured.
pub fn default_lru_rate_limit_entries() -> (entries: usize)
    ensures
        entries == 10_000,
{
    10_000
}

/// Whether `target` passes an allowlist: every capability passes where there is no
/// list, and the listed ones where there is.
pub open spec fn permitted(allowlist: Option<Seq<Endpoint>>, target: Endpoint) -> bool {
    match allowlist {
        None => true,
        Some(list) => list.contains(target),
    }
}

/// The settings of the gateway. They are read once at startup and not changed after.
pub struct Config {
    /// The number of idle connections kept per upstream host.
    pub connections_per_host: usize,
    /// The time in seconds an upstream call may take.
    pub timeout: u64,
    /// The address of the upstream.
    pub motis_address: String,
    /// Whether paths other than `/` are proxied. Meant for debugging only.
    pub proxy_assets: bool,
    /// The capabilities that are let through. Without a list all of them are.
    pub allowed_endpoints: Option<Vec<Endpoint>>,
    /// The quota of routing searches per identity and window.
    pub routes_per_minute_limit: u16,
    /// The number of identities the rate limiter tracks at a time.
    pub lru_rate_limit_entries: usize,
}

impl Config {
    /// The configured allowlist as a sequence.
    pub open spec fn allowlist(&self) -> Option<Seq<Endpoint>> {
        match self.allowed_endpoints {
            None => None,
            Some(list) => Some(list@),
        }
    }

    /// Whether every setting has its default value.
    pub open spec fn is_default(&self) -> bool {
        &&& self.connections_per_host == 100
        &&& self.timeout == 10
        &&& self.motis_address@ == "http://localhost:8080"@
        &&& !self.proxy_assets
        &&& self.allowed_endpoints is None
        &&& self.routes_per_minute_limit == 20
        &&& self.lru_rate_limit_entries == 10_000
    }

    /// Whether the capability `target` is let through.
    pub fn is_allowed(&self, target: Endpoint) -> (allowed: bool)
        ensures
            allowed == permitted(self.allowlist(), target),
    {
        match &self.allowed_endpoints {
            None => true,
            Some(list) => {
                let mut i: usize = 0;
                while i < list.len()
                    invariant
                        self.allowed_endpoints == Some(*list),
                        i <= list.len(),
                        forall|j: int| 0 <= j < i ==> list@[j] != target,
                    decreases list.len() - i,
                {
                    if list[i] == target {
                        return true;
                    }
                    i += 1;
                }
                false
            },
        }
    }
}

impl Default for Config {
    /// The settings used where none are configured.
    fn default() -> (config: Config)
        ensures
            config.is_default(),
    {
        Config {
            connections_per_host: default_connections_per_host(),
            timeout: default_timeout(),
            motis_address: default_motis_address(),
            proxy_assets: default_proxy_assets(),
            allowed_endpoints: default_allowed_endpoints(),
            routes_per_minute_limit: default_routes_per_minute_limit(),
            lru_rate_limit_entries: default_lru_rate_limit_entries(),
        }
    }
}

} // verus!
