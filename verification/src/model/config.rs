use vstd::prelude::*;

use crate::model::common::{LogConfig, ApiConfig, PolicyConfig, SniffingConfig, DnsConfig};
use crate::model::protocol::{ProtocolSettings, SocksAuth};
use crate::model::routing::RoutingConfig;
use crate::model::stream::StreamSettings;
use crate::model::copy::{Duplicate, same_seq};
use crate::text::lit;

verus! {

/// A complete Xray configuration: what the `xray` binary reads.
#[derive(Debug, Clone)]
pub struct XrayConfig {
    pub log: LogConfig,
    pub api: Option<ApiConfig>,
    pub routing: RoutingConfig,
    pub policy: PolicyConfig,
    pub inbounds: Vec<InboundConfig>,
    pub outbounds: Vec<OutboundConfig>,
    pub dns: Option<DnsConfig>,
}

/// One inbound: a listening proxy endpoint.
#[derive(Debug, Clone)]
pub struct InboundConfig {
    pub tag: Option<String>,
    pub port: u16,
    pub listen: String,
    pub protocol: InboundProtocol,
    pub settings: ProtocolSettings,
    pub stream_settings: StreamSettings,
    pub sniffing: SniffingConfig,
}

impl InboundConfig {
    /// How many users an inbound serves: its clients or accounts; a
    /// Shadowsocks inbound has one user, a SOCKS inbound without
    /// authentication none.
    pub open spec fn users(&self) -> nat {
        match self.settings {
            ProtocolSettings::VMess(s) => s.clients@.len(),
            ProtocolSettings::VLess(s) => s.clients@.len(),
            ProtocolSettings::Trojan(s) => s.clients@.len(),
            ProtocolSettings::Shadowsocks(_) => 1,
            ProtocolSettings::Http(s) => s.accounts@.len(),
            ProtocolSettings::Socks(s) => match s.auth {
                SocksAuth::Password { accounts } => accounts@.len(),
                SocksAuth::NoAuth {} => 0,
            },
        }
    }

    pub fn user_count(&self) -> (r: usize)
        ensures
            r == self.users(),
    {
        match &self.settings {
            ProtocolSettings::VMess(s) => s.clients.len(),
            ProtocolSettings::VLess(s) => s.clients.len(),
            ProtocolSettings::Trojan(s) => s.clients.len(),
            ProtocolSettings::Shadowsocks(_) => 1,
            ProtocolSettings::Http(s) => s.accounts.len(),
            ProtocolSettings::Socks(s) => match &s.auth {
                SocksAuth::Password { accounts } => accounts.len(),
                SocksAuth::NoAuth {} => 0,
            },
        }
    }
}

#[derive(Debug, Clone, Copy, PartialEq, Eq, Structural)]
pub enum InboundProtocol {
    VMess,
    VLess,
    Trojan,
    Shadowsocks,
    Http,
    Socks,
}

impl InboundProtocol {
    /// The name shown to users for each protocol.
    pub open spec fn display(self) -> Seq<char> {
        match self {
            InboundProtocol::VMess => "VMess"@,
            InboundProtocol::VLess => "VLESS"@,
            InboundProtocol::Trojan => "Trojan"@,
            InboundProtocol::Shadowsocks => "Shadowsocks"@,
            InboundProtocol::Http => "HTTP"@,
            InboundProtocol::Socks => "SOCKS"@,
        }
    }

    /// The name shown to users (the `Display` text of the protocol).
    pub fn to_string(&self) -> (r: String)
        ensures
            r@ == self.display(),
    {
        match self {
            InboundProtocol::VMess => lit("VMess"),
            InboundProtocol::VLess => lit("VLESS"),
            InboundProtocol::Trojan => lit("Trojan"),
            InboundProtocol::Shadowsocks => lit("Shadowsocks"),
            InboundProtocol::Http => lit("HTTP"),
            InboundProtocol::Socks => lit("SOCKS"),
        }
    }
}

#[derive(Debug, Clone)]
pub struct FallbackConfig {
    pub name: Option<String>,
    pub alpn: Option<String>,
    pub path: Option<String>,
    pub dest: u16,
    pub xver: u8,
}

/// One outbound. Its protocol settings are kept as the JSON text that
/// describes them.
#[derive(Debug, Clone)]
pub struct OutboundConfig {
    pub protocol: String,
    pub settings: Option<String>,
    pub tag: Option<String>,
    pub stream_settings: Option<StreamSettings>,
}

impl OutboundConfig {
    /// An outbound of the given protocol and tag with no settings.
    pub open spec fn is_plain(self, protocol: Seq<char>, tag: Seq<char>) -> bool {
        &&& self.protocol@ == protocol
        &&& self.tag matches Some(t) && t@ == tag
        &&& self.settings is None
        &&& self.stream_settings is None
    }
}

impl XrayConfig {
    /// The configuration for a set of inbounds and routing rules: warning-level
    /// logging, default policy, no API or DNS section, and two outbounds, a
    /// `freedom` one tagged `direct` and a `blackhole` one tagged `block`.
    pub fn from_inbounds(inbounds: &[InboundConfig], routing: &RoutingConfig) -> (r: Self)
        ensures
            r.log.loglevel@ == "warning"@,
            r.log.access is None,
            r.log.error is None,
            r.api is None,
            routing.same_as(&r.routing),
            r.policy.levels is None,
            r.policy.system is None,
            same_seq(inbounds@, r.inbounds@),
            r.outbounds@.len() == 2,
            r.outbounds@[0].is_plain("freedom"@, "direct"@),
            r.outbounds@[1].is_plain("blackhole"@, "block"@),
            r.dns is None,
    {
        let mut ins: Vec<InboundConfig> = Vec::new();
        let mut i: usize = 0;
        while i < inbounds.len()
            invariant
                i <= inbounds@.len(),
                ins@.len() == i,
                forall|j: int| 0 <= j < i ==> (#[trigger] inbounds@[j]).same_as(&ins@[j]),
            decreases inbounds@.len() - i,
        {
            ins.push(inbounds[i].duplicate());
            i += 1;
        }
        let mut outs: Vec<OutboundConfig> = Vec::new();
        outs.push(OutboundConfig {
            protocol: lit("freedom"),
            settings: None,
            tag: Some(lit("direct")),
            stream_settings: None,
        });
        outs.push(OutboundConfig {
            protocol: lit("blackhole"),
            settings: None,
            tag: Some(lit("block")),
            stream_settings: None,
        });
        XrayConfig {
            log: LogConfig { loglevel: lit("warning"), access: None, error: None },
            api: None,
            routing: routing.duplicate(),
            policy: PolicyConfig::default(),
            inbounds: ins,
            outbounds: outs,
            dns: None,
        }
    }
}

} // verus!
