use vstd::prelude::*;

use crate::text::lit;

verus! {

/// The routing section: a domain strategy and rules tried in order.
#[derive(Debug, Clone)]
pub struct RoutingConfig {
    pub domain_strategy: String,
    pub rules: Vec<RoutingRule>,
}

/// The domain strategy when a configuration names none.
pub fn default_domain_strategy() -> (r: String)
    ensures
        r@ == "AsIs"@,
{
    lit("AsIs")
}

impl Default for RoutingConfig {
    fn default() -> (r: Self)
        ensures
            r.domain_strategy@ == Seq::<char>::empty(),
            r.rules@.len() == 0,
    {
        RoutingConfig { domain_strategy: String::new(), rules: Vec::new() }
    }
}

/// One routing rule: traffic that matches goes to `outbound_tag`.
#[derive(Debug, Clone)]
pub struct RoutingRule {
    pub domain: Option<Vec<String>>,
    pub ip: Option<Vec<String>>,
    pub port: Option<String>,
    pub source: Option<Vec<String>>,
    pub source_port: Option<String>,
    pub network: Option<String>,
    pub protocol: Option<Vec<String>>,
    pub inbound_tag: Option<Vec<String>>,
    pub outbound_tag: String,
    pub type_: String,
    pub user: Option<Vec<String>>,
}

/// The texts of an optional list of strings.
pub open spec fn opt_texts(o: Option<Vec<String>>) -> Option<Seq<Seq<char>>> {
    match o {
        Some(v) => Some(v.deep_view()),
        None => None,
    }
}

impl RoutingRule {
    /// A `field` rule that matches only on the given domains and IPs and sends
    /// matching traffic to `tag`.
    pub open spec fn is_field_rule(
        self,
        domain: Option<Seq<Seq<char>>>,
        ip: Option<Seq<Seq<char>>>,
        tag: Seq<char>,
    ) -> bool {
        &&& opt_texts(self.domain) == domain
        &&& opt_texts(self.ip) == ip
        &&& self.port is None
        &&& self.source is None
        &&& self.source_port is None
        &&& self.network is None
        &&& self.protocol is None
        &&& self.inbound_tag is None
        &&& self.outbound_tag@ == tag
        &&& self.type_@ == "field"@
        &&& self.user is None
    }

    /// Sends the given domains to the `direct` outbound.
    pub fn new_direct_domain(domains: Vec<String>) -> (r: Self)
        ensures
            r.is_field_rule(Some(domains.deep_view()), None, "direct"@),
    {
        RoutingRule {
            domain: Some(domains),
            ip: None,
            port: None,
            source: None,
            source_port: None,
            network: None,
            protocol: None,
            inbound_tag: None,
            outbound_tag: lit("direct"),
            type_: lit("field"),
            user: None,
        }
    }

    /// Sends the given domains to the `block` outbound.
    pub fn new_block_domain(domains: Vec<String>) -> (r: Self)
        ensures
            r.is_field_rule(Some(domains.deep_view()), None, "block"@),
    {
        RoutingRule {
            domain: Some(domains),
            ip: None,
            port: None,
            source: None,
            source_port: None,
            network: None,
            protocol: None,
            inbound_tag: None,
            outbound_tag: lit("block"),
            type_: lit("field"),
            user: None,
        }
    }

    /// Sends the given IP ranges to the `direct` outbound.
    pub fn new_direct_ip(ips: Vec<String>) -> (r: Self)
        ensures
            r.is_field_rule(None, Some(ips.deep_view()), "direct"@),
    {
        RoutingRule {
            domain: None,
            ip: Some(ips),
            port: None,
            source: None,
            source_port: None,
            network: None,
            protocol: None,
            inbound_tag: None,
            outbound_tag: lit("direct"),
            type_: lit("field"),
            user: None,
        }
    }

    /// Chinese sites go direct.
    pub fn preset_cn_direct() -> (r: Self)
        ensures
            r.is_field_rule(Some(seq!["geosite:cn"@]), None, "direct"@),
    {
        let mut v: Vec<String> = Vec::new();
        v.push(lit("geosite:cn"));
        assert(v.deep_view() =~= seq!["geosite:cn"@]);
        Self::new_direct_domain(v)
    }

    /// Advertising domains are blocked.
    pub fn preset_ads_block() -> (r: Self)
        ensures
            r.is_field_rule(Some(seq!["geosite:category-ads-all"@]), None, "block"@),
    {
        let mut v: Vec<String> = Vec::new();
        v.push(lit("geosite:category-ads-all"));
        assert(v.deep_view() =~= seq!["geosite:category-ads-all"@]);
        Self::new_block_domain(v)
    }

    /// Chinese IP ranges go direct.
    pub fn preset_cn_ip_direct() -> (r: Self)
        ensures
            r.is_field_rule(None, Some(seq!["geoip:cn"@]), "direct"@),
    {
        let mut v: Vec<String> = Vec::new();
        v.push(lit("geoip:cn"));
        assert(v.deep_view() =~= seq!["geoip:cn"@]);
        Self::new_direct_ip(v)
    }

    /// Private IP ranges go direct.
    pub fn preset_private_direct() -> (r: Self)
        ensures
            r.is_field_rule(None, Some(seq!["geoip:private"@]), "direct"@),
    {
        let mut v: Vec<String> = Vec::new();
        v.push(lit("geoip:private"));
        assert(v.deep_view() =~= seq!["geoip:private"@]);
        Self::new_direct_ip(v)
    }

    /// The four presets, in this order: Chinese sites direct, ads blocked,
    /// Chinese IPs direct, private IPs direct.
    pub fn all_presets() -> (r: Vec<Self>)
        ensures
            r@.len() == 4,
            r@[0].is_field_rule(Some(seq!["geosite:cn"@]), None, "direct"@),
            r@[1].is_field_rule(Some(seq!["geosite:category-ads-all"@]), None, "block"@),
            r@[2].is_field_rule(None, Some(seq!["geoip:cn"@]), "direct"@),
            r@[3].is_field_rule(None, Some(seq!["geoip:private"@]), "direct"@),
    {
        let mut v: Vec<Self> = Vec::new();
        v.push(Self::preset_cn_direct());
        v.push(Self::preset_ads_block());
        v.push(Self::preset_cn_ip_direct());
        v.push(Self::preset_private_direct());
        v
    }
}

impl Default for RoutingRule {
    fn default() -> (r: Self)
        ensures
            r.is_field_rule(None, None, "direct"@),
    {
        RoutingRule {
            domain: None,
            ip: None,
            port: None,
            source: None,
            source_port: None,
            network: None,
            protocol: None,
            inbound_tag: None,
            outbound_tag: lit("direct"),
            type_: lit("field"),
            user: None,
        }
    }
}

} // verus!
