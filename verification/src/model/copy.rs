//! Field-by-field copies of the configuration model, with what "the same"
//! means for each type: equal fields, and lists with the same entries in
//! the same order.

use vstd::prelude::*;

use crate::model::common::SniffingConfig;
use crate::model::config::{FallbackConfig, InboundConfig};
use crate::model::protocol::{
    HttpAccount, HttpSettings, ProtocolSettings, ShadowsocksSettings, SocksAccount, SocksAuth, SocksSettings,
    TrojanClient, TrojanSettings, VLessClient, VLessSettings, VMessClient, VMessSettings,
};
use crate::model::routing::{RoutingConfig, RoutingRule};
use crate::model::ssl::CertInfo;
use crate::model::stream::{
    GrpcSettings, HttpUpgradeSettings, KcpHeaderConfig, KcpSettings, QuicHeaderConfig, QuicSettings, RealitySettings,
    StreamSettings, TcpHeaderConfig, TcpSettings, TlsCertificate, TlsSettings, WsSettings,
};

verus! {

/// A type whose values can be copied, with `same_as` saying that a copy
/// holds the same data.
pub trait Duplicate: Sized {
    /// `other` holds the same data as `self`.
    spec fn same_as(&self, other: &Self) -> bool;

    /// A copy holding the same data.
    fn duplicate(&self) -> (r: Self)
        ensures
            self.same_as(&r);
}

/// Two lists hold the same entries, in the same order.
pub open spec fn same_seq<T: Duplicate>(a: Seq<T>, b: Seq<T>) -> bool {
    a.len() == b.len() && forall|i: int| 0 <= i < a.len() ==> (#[trigger] a[i]).same_as(&b[i])
}

impl Duplicate for String {
    open spec fn same_as(&self, other: &Self) -> bool {
        *self == *other
    }

    fn duplicate(&self) -> (r: Self) {
        self.clone()
    }
}

impl<T: Duplicate> Duplicate for Option<T> {
    open spec fn same_as(&self, other: &Self) -> bool {
        match (self, other) {
            (Some(a), Some(b)) => a.same_as(b),
            (None, None) => true,
            _ => false,
        }
    }

    fn duplicate(&self) -> (r: Self) {
        match self {
            Some(a) => Some(a.duplicate()),
            None => None,
        }
    }
}

impl<T: Duplicate> Duplicate for Vec<T> {
    open spec fn same_as(&self, other: &Self) -> bool {
        same_seq(self@, other@)
    }

    fn duplicate(&self) -> (r: Self) {
        let mut r: Vec<T> = Vec::new();
        let mut i: usize = 0;
        while i < self.len()
            invariant
                i <= self@.len(),
                r@.len() == i,
                forall|j: int| 0 <= j < i ==> (#[trigger] self@[j]).same_as(&r@[j]),
            decreases self@.len() - i,
        {
            r.push(self[i].duplicate());
            i += 1;
        }
        r
    }
}

impl Duplicate for (String, String) {
    open spec fn same_as(&self, other: &Self) -> bool {
        *self == *other
    }

    fn duplicate(&self) -> (r: Self) {
        (self.0.clone(), self.1.clone())
    }
}

impl Duplicate for VMessClient {
    open spec fn same_as(&self, other: &Self) -> bool {
        *self == *other
    }

    fn duplicate(&self) -> (r: Self) {
        VMessClient {
            id: self.id.duplicate(),
            security: self.security.duplicate(),
            email: self.email.duplicate(),
            level: self.level,
        }
    }
}

impl Duplicate for VLessClient {
    open spec fn same_as(&self, other: &Self) -> bool {
        *self == *other
    }

    fn duplicate(&self) -> (r: Self) {
        VLessClient {
            id: self.id.duplicate(),
            flow: self.flow.duplicate(),
            email: self.email.duplicate(),
            level: self.level,
        }
    }
}

impl Duplicate for TrojanClient {
    open spec fn same_as(&self, other: &Self) -> bool {
        *self == *other
    }

    fn duplicate(&self) -> (r: Self) {
        TrojanClient {
            password: self.password.duplicate(),
            email: self.email.duplicate(),
            level: self.level,
        }
    }
}

impl Duplicate for FallbackConfig {
    open spec fn same_as(&self, other: &Self) -> bool {
        *self == *other
    }

    fn duplicate(&self) -> (r: Self) {
        FallbackConfig {
            name: self.name.duplicate(),
            alpn: self.alpn.duplicate(),
            path: self.path.duplicate(),
            dest: self.dest,
            xver: self.xver,
        }
    }
}

impl Duplicate for ShadowsocksSettings {
    open spec fn same_as(&self, other: &Self) -> bool {
        *self == *other
    }

    fn duplicate(&self) -> (r: Self) {
        ShadowsocksSettings {
            method: self.method.duplicate(),
            password: self.password.duplicate(),
            network: self.network.duplicate(),
            email: self.email.duplicate(),
            level: self.level,
        }
    }
}

impl Duplicate for HttpAccount {
    open spec fn same_as(&self, other: &Self) -> bool {
        *self == *other
    }

    fn duplicate(&self) -> (r: Self) {
        HttpAccount {
            user: self.user.duplicate(),
            pass: self.pass.duplicate(),
        }
    }
}

impl Duplicate for SocksAccount {
    open spec fn same_as(&self, other: &Self) -> bool {
        *self == *other
    }

    fn duplicate(&self) -> (r: Self) {
        SocksAccount {
            user: self.user.duplicate(),
            pass: self.pass.duplicate(),
        }
    }
}

impl Duplicate for TlsCertificate {
    open spec fn same_as(&self, other: &Self) -> bool {
        *self == *other
    }

    fn duplicate(&self) -> (r: Self) {
        TlsCertificate {
            certificate_file: self.certificate_file.duplicate(),
            key_file: self.key_file.duplicate(),
        }
    }
}

impl Duplicate for GrpcSettings {
    open spec fn same_as(&self, other: &Self) -> bool {
        *self == *other
    }

    fn duplicate(&self) -> (r: Self) {
        GrpcSettings {
            service_name: self.service_name.duplicate(),
            multi_mode: self.multi_mode,
            authority: self.authority.duplicate(),
        }
    }
}

impl Duplicate for HttpUpgradeSettings {
    open spec fn same_as(&self, other: &Self) -> bool {
        *self == *other
    }

    fn duplicate(&self) -> (r: Self) {
        HttpUpgradeSettings {
            path: self.path.duplicate(),
            host: self.host.duplicate(),
        }
    }
}

impl Duplicate for TcpHeaderConfig {
    open spec fn same_as(&self, other: &Self) -> bool {
        *self == *other
    }

    fn duplicate(&self) -> (r: Self) {
        TcpHeaderConfig {
            header_type: self.header_type.duplicate(),
        }
    }
}

impl Duplicate for TcpSettings {
    open spec fn same_as(&self, other: &Self) -> bool {
        *self == *other
    }

    fn duplicate(&self) -> (r: Self) {
        TcpSettings {
            header: self.header.duplicate(),
        }
    }
}

impl Duplicate for KcpHeaderConfig {
    open spec fn same_as(&self, other: &Self) -> bool {
        *self == *other
    }

    fn duplicate(&self) -> (r: Self) {
        KcpHeaderConfig {
            header_type: self.header_type.duplicate(),
        }
    }
}

impl Duplicate for KcpSettings {
    open spec fn same_as(&self, other: &Self) -> bool {
        *self == *other
    }

    fn duplicate(&self) -> (r: Self) {
        KcpSettings {
            mtu: self.mtu,
            tti: self.tti,
            uplink_capacity: self.uplink_capacity,
            downlink_capacity: self.downlink_capacity,
            congestion: self.congestion,
            read_buffer_size: self.read_buffer_size,
            write_buffer_size: self.write_buffer_size,
            header: self.header.duplicate(),
        }
    }
}

impl Duplicate for QuicHeaderConfig {
    open spec fn same_as(&self, other: &Self) -> bool {
        *self == *other
    }

    fn duplicate(&self) -> (r: Self) {
        QuicHeaderConfig {
            header_type: self.header_type.duplicate(),
        }
    }
}

impl Duplicate for QuicSettings {
    open spec fn same_as(&self, other: &Self) -> bool {
        *self == *other
    }

    fn duplicate(&self) -> (r: Self) {
        QuicSettings {
            security: self.security.duplicate(),
            key: self.key.duplicate(),
            header: self.header.duplicate(),
        }
    }
}

impl Duplicate for VMessSettings {
    open spec fn same_as(&self, other: &Self) -> bool {
        self.clients.same_as(&other.clients)
    }

    fn duplicate(&self) -> (r: Self) {
        VMessSettings {
            clients: self.clients.duplicate(),
        }
    }
}

impl Duplicate for VLessSettings {
    open spec fn same_as(&self, other: &Self) -> bool {
        self.clients.same_as(&other.clients)
        && self.decryption.same_as(&other.decryption)
    }

    fn duplicate(&self) -> (r: Self) {
        VLessSettings {
            clients: self.clients.duplicate(),
            decryption: self.decryption.duplicate(),
        }
    }
}

impl Duplicate for TrojanSettings {
    open spec fn same_as(&self, other: &Self) -> bool {
        self.clients.same_as(&other.clients)
        && self.fallbacks.same_as(&other.fallbacks)
    }

    fn duplicate(&self) -> (r: Self) {
        TrojanSettings {
            clients: self.clients.duplicate(),
            fallbacks: self.fallbacks.duplicate(),
        }
    }
}

impl Duplicate for HttpSettings {
    open spec fn same_as(&self, other: &Self) -> bool {
        self.accounts.same_as(&other.accounts)
        && self.timeout == other.timeout
        && self.allow_transparent == other.allow_transparent
    }

    fn duplicate(&self) -> (r: Self) {
        HttpSettings {
            accounts: self.accounts.duplicate(),
            timeout: self.timeout,
            allow_transparent: self.allow_transparent,
        }
    }
}

impl Duplicate for SocksSettings {
    open spec fn same_as(&self, other: &Self) -> bool {
        self.auth.same_as(&other.auth)
        && self.udp == other.udp
        && self.ip.same_as(&other.ip)
        && self.user_level == other.user_level
    }

    fn duplicate(&self) -> (r: Self) {
        SocksSettings {
            auth: self.auth.duplicate(),
            udp: self.udp,
            ip: self.ip.duplicate(),
            user_level: self.user_level,
        }
    }
}

impl Duplicate for TlsSettings {
    open spec fn same_as(&self, other: &Self) -> bool {
        self.server_name.same_as(&other.server_name)
        && self.certificates.same_as(&other.certificates)
        && self.alpn.same_as(&other.alpn)
        && self.min_version.same_as(&other.min_version)
    }

    fn duplicate(&self) -> (r: Self) {
        TlsSettings {
            server_name: self.server_name.duplicate(),
            certificates: self.certificates.duplicate(),
            alpn: self.alpn.duplicate(),
            min_version: self.min_version.duplicate(),
        }
    }
}

impl Duplicate for RealitySettings {
    open spec fn same_as(&self, other: &Self) -> bool {
        self.server_name.same_as(&other.server_name)
        && self.public_key.same_as(&other.public_key)
        && self.private_key.same_as(&other.private_key)
        && self.short_ids.same_as(&other.short_ids)
        && self.fingerprint.same_as(&other.fingerprint)
        && self.spider_x.same_as(&other.spider_x)
        && self.dest.same_as(&other.dest)
    }

    fn duplicate(&self) -> (r: Self) {
        RealitySettings {
            server_name: self.server_name.duplicate(),
            public_key: self.public_key.duplicate(),
            private_key: self.private_key.duplicate(),
            short_ids: self.short_ids.duplicate(),
            fingerprint: self.fingerprint.duplicate(),
            spider_x: self.spider_x.duplicate(),
            dest: self.dest.duplicate(),
        }
    }
}

impl Duplicate for WsSettings {
    open spec fn same_as(&self, other: &Self) -> bool {
        self.path.same_as(&other.path)
        && self.host.same_as(&other.host)
        && self.headers.same_as(&other.headers)
    }

    fn duplicate(&self) -> (r: Self) {
        WsSettings {
            path: self.path.duplicate(),
            host: self.host.duplicate(),
            headers: self.headers.duplicate(),
        }
    }
}

impl Duplicate for StreamSettings {
    open spec fn same_as(&self, other: &Self) -> bool {
        self.network == other.network
        && self.security == other.security
        && self.tls_settings.same_as(&other.tls_settings)
        && self.reality_settings.same_as(&other.reality_settings)
        && self.ws_settings.same_as(&other.ws_settings)
        && self.grpc_settings.same_as(&other.grpc_settings)
        && self.httpupgrade_settings.same_as(&other.httpupgrade_settings)
        && self.tcp_settings.same_as(&other.tcp_settings)
        && self.kcp_settings.same_as(&other.kcp_settings)
        && self.quic_settings.same_as(&other.quic_settings)
    }

    fn duplicate(&self) -> (r: Self) {
        StreamSettings {
            network: self.network,
            security: self.security,
            tls_settings: self.tls_settings.duplicate(),
            reality_settings: self.reality_settings.duplicate(),
            ws_settings: self.ws_settings.duplicate(),
            grpc_settings: self.grpc_settings.duplicate(),
            httpupgrade_settings: self.httpupgrade_settings.duplicate(),
            tcp_settings: self.tcp_settings.duplicate(),
            kcp_settings: self.kcp_settings.duplicate(),
            quic_settings: self.quic_settings.duplicate(),
        }
    }
}

impl Duplicate for SniffingConfig {
    open spec fn same_as(&self, other: &Self) -> bool {
        self.enabled == other.enabled
        && self.dest_override.same_as(&other.dest_override)
        && self.route_only == other.route_only
        && self.metadata_only == other.metadata_only
    }

    fn duplicate(&self) -> (r: Self) {
        SniffingConfig {
            enabled: self.enabled,
            dest_override: self.dest_override.duplicate(),
            route_only: self.route_only,
            metadata_only: self.metadata_only,
        }
    }
}

impl Duplicate for InboundConfig {
    open spec fn same_as(&self, other: &Self) -> bool {
        self.tag.same_as(&other.tag)
        && self.port == other.port
        && self.listen.same_as(&other.listen)
        && self.protocol == other.protocol
        && self.settings.same_as(&other.settings)
        && self.stream_settings.same_as(&other.stream_settings)
        && self.sniffing.same_as(&other.sniffing)
    }

    fn duplicate(&self) -> (r: Self) {
        InboundConfig {
            tag: self.tag.duplicate(),
            port: self.port,
            listen: self.listen.duplicate(),
            protocol: self.protocol,
            settings: self.settings.duplicate(),
            stream_settings: self.stream_settings.duplicate(),
            sniffing: self.sniffing.duplicate(),
        }
    }
}

impl Duplicate for RoutingRule {
    open spec fn same_as(&self, other: &Self) -> bool {
        self.domain.same_as(&other.domain)
        && self.ip.same_as(&other.ip)
        && self.port.same_as(&other.port)
        && self.source.same_as(&other.source)
        && self.source_port.same_as(&other.source_port)
        && self.network.same_as(&other.network)
        && self.protocol.same_as(&other.protocol)
        && self.inbound_tag.same_as(&other.inbound_tag)
        && self.outbound_tag.same_as(&other.outbound_tag)
        && self.type_.same_as(&other.type_)
        && self.user.same_as(&other.user)
    }

    fn duplicate(&self) -> (r: Self) {
        RoutingRule {
            domain: self.domain.duplicate(),
            ip: self.ip.duplicate(),
            port: self.port.duplicate(),
            source: self.source.duplicate(),
            source_port: self.source_port.duplicate(),
            network: self.network.duplicate(),
            protocol: self.protocol.duplicate(),
            inbound_tag: self.inbound_tag.duplicate(),
            outbound_tag: self.outbound_tag.duplicate(),
            type_: self.type_.duplicate(),
            user: self.user.duplicate(),
        }
    }
}

impl Duplicate for RoutingConfig {
    open spec fn same_as(&self, other: &Self) -> bool {
        self.domain_strategy.same_as(&other.domain_strategy)
        && self.rules.same_as(&other.rules)
    }

    fn duplicate(&self) -> (r: Self) {
        RoutingConfig {
            domain_strategy: self.domain_strategy.duplicate(),
            rules: self.rules.duplicate(),
        }
    }
}

impl Duplicate for SocksAuth {
    open spec fn same_as(&self, other: &Self) -> bool {
        match (self, other) {
            (SocksAuth::NoAuth {}, SocksAuth::NoAuth {}) => true,
            (SocksAuth::Password { accounts: a }, SocksAuth::Password { accounts: b }) => a.same_as(b),
            _ => false,
        }
    }

    fn duplicate(&self) -> (r: Self) {
        match self {
            SocksAuth::NoAuth {} => SocksAuth::NoAuth {},
            SocksAuth::Password { accounts } => SocksAuth::Password { accounts: accounts.duplicate() },
        }
    }
}

impl Duplicate for ProtocolSettings {
    open spec fn same_as(&self, other: &Self) -> bool {
        match (self, other) {
            (ProtocolSettings::VMess(a), ProtocolSettings::VMess(b)) => a.same_as(b),
            (ProtocolSettings::VLess(a), ProtocolSettings::VLess(b)) => a.same_as(b),
            (ProtocolSettings::Trojan(a), ProtocolSettings::Trojan(b)) => a.same_as(b),
            (ProtocolSettings::Shadowsocks(a), ProtocolSettings::Shadowsocks(b)) => a.same_as(b),
            (ProtocolSettings::Http(a), ProtocolSettings::Http(b)) => a.same_as(b),
            (ProtocolSettings::Socks(a), ProtocolSettings::Socks(b)) => a.same_as(b),
            _ => false,
        }
    }

    fn duplicate(&self) -> (r: Self) {
        match self {
            ProtocolSettings::VMess(a) => ProtocolSettings::VMess(a.duplicate()),
            ProtocolSettings::VLess(a) => ProtocolSettings::VLess(a.duplicate()),
            ProtocolSettings::Trojan(a) => ProtocolSettings::Trojan(a.duplicate()),
            ProtocolSettings::Shadowsocks(a) => ProtocolSettings::Shadowsocks(a.duplicate()),
            ProtocolSettings::Http(a) => ProtocolSettings::Http(a.duplicate()),
            ProtocolSettings::Socks(a) => ProtocolSettings::Socks(a.duplicate()),
        }
    }
}

impl Duplicate for CertInfo {
    open spec fn same_as(&self, other: &Self) -> bool {
        *self == *other
    }

    fn duplicate(&self) -> (r: Self) {
        CertInfo {
            domain: self.domain.duplicate(),
            issued_at: self.issued_at,
            expires_at: self.expires_at,
            cert_path: self.cert_path.duplicate(),
            key_path: self.key_path.duplicate(),
            issuer: self.issuer.duplicate(),
            auto_renew: self.auto_renew,
            renew_command: self.renew_command.duplicate(),
        }
    }
}

} // verus!
