use vstd::prelude::*;

use crate::text::lit;

verus! {

/// Logging section of an Xray configuration.
#[derive(Debug, Clone)]
pub struct LogConfig {
    pub loglevel: String,
    pub access: Option<String>,
    pub error: Option<String>,
}

/// The log level used when a configuration names none.
pub fn default_loglevel() -> (r: String)
    ensures
        r@ == "warning"@,
{
    lit("warning")
}

/// API section of an Xray configuration.
#[derive(Debug, Clone)]
pub struct ApiConfig {
    pub tag: String,
    pub services: Vec<String>,
}

/// Policy section. The per-level policies are kept as (level name, policy)
/// pairs, one pair per level name.
#[derive(Debug, Clone)]
pub struct PolicyConfig {
    pub levels: Option<Vec<(String, PolicyLevel)>>,
    pub system: Option<PolicySystem>,
}

impl Default for PolicyConfig {
    fn default() -> (r: Self)
        ensures
            r.levels is None,
            r.system is None,
    {
        PolicyConfig { levels: None, system: None }
    }
}

#[derive(Debug, Clone)]
pub struct PolicyLevel {
    pub handshake: Option<u32>,
    pub conn_idle: Option<u32>,
    pub uplink_only: Option<u32>,
    pub downlink_only: Option<u32>,
    pub stats_user_uplink: Option<bool>,
    pub stats_user_downlink: Option<bool>,
    pub buffer_size: Option<i32>,
}

#[derive(Debug, Clone)]
pub struct PolicySystem {
    pub stats_inbound_uplink: Option<bool>,
    pub stats_inbound_downlink: Option<bool>,
    pub stats_outbound_uplink: Option<bool>,
    pub stats_outbound_downlink: Option<bool>,
}

/// Traffic sniffing options of an inbound.
#[derive(Debug, Clone)]
pub struct SniffingConfig {
    pub enabled: bool,
    pub dest_override: Vec<String>,
    pub route_only: bool,
    pub metadata_only: Option<bool>,
}

/// Sniffing is on unless a configuration says otherwise.
pub fn default_true() -> (r: bool)
    ensures
        r,
{
    true
}

/// The protocols sniffed by default: HTTP and TLS.
pub fn default_sniff_dest_override() -> (r: Vec<String>)
    ensures
        r.deep_view() == seq!["http"@, "tls"@],
{
    let mut v: Vec<String> = Vec::new();
    v.push(lit("http"));
    v.push(lit("tls"));
    assert(v.deep_view() =~= seq!["http"@, "tls"@]);
    v
}

impl Default for SniffingConfig {
    fn default() -> (r: Self)
        ensures
            r.enabled,
            r.dest_override.deep_view() == seq!["http"@, "tls"@],
            !r.route_only,
            r.metadata_only is None,
    {
        SniffingConfig {
            enabled: true,
            dest_override: default_sniff_dest_override(),
            route_only: false,
            metadata_only: None,
        }
    }
}

/// DNS section. Each server entry is kept as the JSON text that describes it.
#[derive(Debug, Clone)]
pub struct DnsConfig {
    pub servers: Vec<String>,
    pub tag: Option<String>,
}

} // verus!
