use vstd::prelude::*;

use crate::text::lit;

verus! {

/// Transport and security settings of an inbound or outbound.
#[derive(Debug, Clone)]
pub struct StreamSettings {
    pub network: TransportNetwork,
    pub security: StreamSecurity,
    pub tls_settings: Option<TlsSettings>,
    pub reality_settings: Option<RealitySettings>,
    pub ws_settings: Option<WsSettings>,
    pub grpc_settings: Option<GrpcSettings>,
    pub httpupgrade_settings: Option<HttpUpgradeSettings>,
    pub tcp_settings: Option<TcpSettings>,
    pub kcp_settings: Option<KcpSettings>,
    pub quic_settings: Option<QuicSettings>,
}

#[derive(Debug, Clone, Copy, PartialEq, Eq, Structural)]
pub enum TransportNetwork {
    Tcp,
    Ws,
    Kcp,
    Grpc,
    HttpUpgrade,
    Quic,
    DomainSocket,
}

/// TCP is the transport when a configuration names none.
pub fn default_network() -> (r: TransportNetwork)
    ensures
        r == TransportNetwork::Tcp,
{
    TransportNetwork::Tcp
}

impl TransportNetwork {
    /// The name shown to users for each transport.
    pub open spec fn display(self) -> Seq<char> {
        match self {
            TransportNetwork::Tcp => "TCP"@,
            TransportNetwork::Ws => "WebSocket"@,
            TransportNetwork::Kcp => "KCP"@,
            TransportNetwork::Grpc => "gRPC"@,
            TransportNetwork::HttpUpgrade => "HTTPUpgrade"@,
            TransportNetwork::Quic => "QUIC"@,
            TransportNetwork::DomainSocket => "DomainSocket"@,
        }
    }

    /// The name shown to users (the `Display` text of the transport).
    pub fn to_string(&self) -> (r: String)
        ensures
            r@ == self.display(),
    {
        match self {
            TransportNetwork::Tcp => lit("TCP"),
            TransportNetwork::Ws => lit("WebSocket"),
            TransportNetwork::Kcp => lit("KCP"),
            TransportNetwork::Grpc => lit("gRPC"),
            TransportNetwork::HttpUpgrade => lit("HTTPUpgrade"),
            TransportNetwork::Quic => lit("QUIC"),
            TransportNetwork::DomainSocket => lit("DomainSocket"),
        }
    }
}

#[derive(Debug, Clone, Copy, PartialEq, Eq, Structural)]
pub enum StreamSecurity {
    NoSecurity,
    Tls,
    Reality,
}

/// No transport security when a configuration names none.
pub fn default_stream_security() -> (r: StreamSecurity)
    ensures
        r == StreamSecurity::NoSecurity,
{
    StreamSecurity::NoSecurity
}

impl StreamSecurity {
    /// The name shown to users for each security layer.
    pub open spec fn display(self) -> Seq<char> {
        match self {
            StreamSecurity::NoSecurity => "none"@,
            StreamSecurity::Tls => "TLS"@,
            StreamSecurity::Reality => "Reality"@,
        }
    }

    /// The name shown to users (the `Display` text of the security layer).
    pub fn to_string(&self) -> (r: String)
        ensures
            r@ == self.display(),
    {
        match self {
            StreamSecurity::NoSecurity => lit("none"),
            StreamSecurity::Tls => lit("TLS"),
            StreamSecurity::Reality => lit("Reality"),
        }
    }
}

#[derive(Debug, Clone)]
pub struct TlsSettings {
    pub server_name: Option<String>,
    pub certificates: Vec<TlsCertificate>,
    pub alpn: Vec<String>,
    pub min_version: Option<String>,
}

#[derive(Debug, Clone)]
pub struct TlsCertificate {
    pub certificate_file: String,
    pub key_file: String,
}

#[derive(Debug, Clone)]
pub struct RealitySettings {
    pub server_name: String,
    pub public_key: String,
    pub private_key: String,
    pub short_ids: Vec<String>,
    pub fingerprint: String,
    pub spider_x: Option<String>,
    pub dest: String,
}

/// Reality imitates Chrome's TLS fingerprint unless told otherwise.
pub fn default_fingerprint() -> (r: String)
    ensures
        r@ == "chrome"@,
{
    lit("chrome")
}

/// WebSocket transport. Extra headers are kept as (name, value) pairs.
#[derive(Debug, Clone)]
pub struct WsSettings {
    pub path: String,
    pub host: Option<String>,
    pub headers: Option<Vec<(String, String)>>,
}

#[derive(Debug, Clone)]
pub struct GrpcSettings {
    pub service_name: String,
    pub multi_mode: bool,
    pub authority: Option<String>,
}

#[derive(Debug, Clone)]
pub struct HttpUpgradeSettings {
    pub path: String,
    pub host: Option<String>,
}

#[derive(Debug, Clone)]
pub struct TcpSettings {
    pub header: Option<TcpHeaderConfig>,
}

#[derive(Debug, Clone)]
pub struct TcpHeaderConfig {
    pub header_type: String,
}

#[derive(Debug, Clone)]
pub struct KcpSettings {
    pub mtu: u32,
    pub tti: u32,
    pub uplink_capacity: u32,
    pub downlink_capacity: u32,
    pub congestion: bool,
    pub read_buffer_size: u32,
    pub write_buffer_size: u32,
    pub header: Option<KcpHeaderConfig>,
}

#[derive(Debug, Clone)]
pub struct KcpHeaderConfig {
    pub header_type: String,
}

#[derive(Debug, Clone)]
pub struct QuicSettings {
    pub security: String,
    pub key: String,
    pub header: Option<QuicHeaderConfig>,
}

#[derive(Debug, Clone)]
pub struct QuicHeaderConfig {
    pub header_type: String,
}

} // verus!
