use vstd::prelude::*;

use crate::codec::{default_hash, fresh_uuid, new_uuid_v4};
use crate::model::common::SniffingConfig;
use crate::model::config::{InboundConfig, InboundProtocol};
use crate::model::protocol::{
    HttpAccount, HttpSettings, ProtocolSettings, ShadowsocksSettings, SocksAuth, SocksSettings, TrojanClient,
    TrojanSettings, VLessClient, VLessSettings, VMessClient, VMessSettings,
};
use crate::model::stream::{
    GrpcSettings, RealitySettings, StreamSecurity, StreamSettings, TlsCertificate, TlsSettings,
    TransportNetwork, WsSettings,
};
use crate::text::{contains_text, hex16, hex_digits, lemma_hex_digits_len, lit, occurs_at, texts};
use crate::ui::templates::InboundTemplate;

verus! {

/// Everything the wizard collects about an inbound before it is built.
#[derive(Debug, Clone)]
pub struct InboundConfigBuilder {
    pub protocol: InboundProtocol,
    pub port: u16,
    pub listen: String,
    pub tag: Option<String>,
    pub transport: TransportNetwork,
    pub security: StreamSecurity,
    pub ws_path: Option<String>,
    pub ws_host: Option<String>,
    pub grpc_service_name: Option<String>,
    pub grpc_multi_mode: bool,
    pub tls_server_name: Option<String>,
    pub tls_cert_path: Option<String>,
    pub tls_key_path: Option<String>,
    pub reality_server_name: Option<String>,
    pub reality_dest: Option<String>,
    pub reality_public_key: Option<String>,
    pub reality_private_key: Option<String>,
    pub reality_short_id: Option<String>,
    pub reality_fingerprint: String,
    pub sniffing_enabled: bool,
    pub sniffing_http: bool,
    pub sniffing_tls: bool,
    pub sniffing_quic: bool,
    pub sniffing_route_only: bool,
    pub uuid: Option<String>,
    pub vless_flow: Option<String>,
    pub password: Option<String>,
    pub email: Option<String>,
    pub ss_method: String,
    pub http_user: Option<String>,
    pub http_pass: Option<String>,
}

/// The builder's fields as texts.
#[verifier::ext_equal]
pub struct BuilderView {
    pub protocol: InboundProtocol,
    pub port: u16,
    pub listen: Seq<char>,
    pub tag: Option<Seq<char>>,
    pub transport: TransportNetwork,
    pub security: StreamSecurity,
    pub ws_path: Option<Seq<char>>,
    pub ws_host: Option<Seq<char>>,
    pub grpc_service_name: Option<Seq<char>>,
    pub grpc_multi_mode: bool,
    pub tls_server_name: Option<Seq<char>>,
    pub tls_cert_path: Option<Seq<char>>,
    pub tls_key_path: Option<Seq<char>>,
    pub reality_server_name: Option<Seq<char>>,
    pub reality_dest: Option<Seq<char>>,
    pub reality_public_key: Option<Seq<char>>,
    pub reality_private_key: Option<Seq<char>>,
    pub reality_short_id: Option<Seq<char>>,
    pub reality_fingerprint: Seq<char>,
    pub sniffing_enabled: bool,
    pub sniffing_http: bool,
    pub sniffing_tls: bool,
    pub sniffing_quic: bool,
    pub sniffing_route_only: bool,
    pub uuid: Option<Seq<char>>,
    pub vless_flow: Option<Seq<char>>,
    pub password: Option<Seq<char>>,
    pub email: Option<Seq<char>>,
    pub ss_method: Seq<char>,
    pub http_user: Option<Seq<char>>,
    pub http_pass: Option<Seq<char>>,
}

/// The text of an optional string.
pub open spec fn ot(o: Option<String>) -> Option<Seq<char>> {
    match o {
        Some(s) => Some(s@),
        None => None,
    }
}

/// The text, or nothing.
pub open spec fn or_empty(o: Option<Seq<char>>) -> Seq<char> {
    match o {
        Some(s) => s,
        None => Seq::empty(),
    }
}

/// The text, or the default `d`.
pub open spec fn or_text(o: Option<Seq<char>>, d: Seq<char>) -> Seq<char> {
    match o {
        Some(s) => s,
        None => d,
    }
}

impl View for InboundConfigBuilder {
    type V = BuilderView;

    open spec fn view(&self) -> BuilderView {
        BuilderView {
            protocol: self.protocol,
            port: self.port,
            listen: self.listen@,
            tag: ot(self.tag),
            transport: self.transport,
            security: self.security,
            ws_path: ot(self.ws_path),
            ws_host: ot(self.ws_host),
            grpc_service_name: ot(self.grpc_service_name),
            grpc_multi_mode: self.grpc_multi_mode,
            tls_server_name: ot(self.tls_server_name),
            tls_cert_path: ot(self.tls_cert_path),
            tls_key_path: ot(self.tls_key_path),
            reality_server_name: ot(self.reality_server_name),
            reality_dest: ot(self.reality_dest),
            reality_public_key: ot(self.reality_public_key),
            reality_private_key: ot(self.reality_private_key),
            reality_short_id: ot(self.reality_short_id),
            reality_fingerprint: self.reality_fingerprint@,
            sniffing_enabled: self.sniffing_enabled,
            sniffing_http: self.sniffing_http,
            sniffing_tls: self.sniffing_tls,
            sniffing_quic: self.sniffing_quic,
            sniffing_route_only: self.sniffing_route_only,
            uuid: ot(self.uuid),
            vless_flow: ot(self.vless_flow),
            password: ot(self.password),
            email: ot(self.email),
            ss_method: self.ss_method@,
            http_user: ot(self.http_user),
            http_pass: ot(self.http_pass),
        }
    }
}

/// The TLS fields every TLS template uses.
pub open spec fn with_tls(v: BuilderView) -> BuilderView {
    BuilderView {
        security: StreamSecurity::Tls,
        tls_server_name: Some("your-domain.com"@),
        tls_cert_path: Some("/etc/xray/certs/fullchain.pem"@),
        tls_key_path: Some("/etc/xray/certs/privkey.pem"@),
        ..v
    }
}

/// The Reality fields every Reality template uses, imitating `sni`.
pub open spec fn with_reality(v: BuilderView, sni: Seq<char>) -> BuilderView {
    BuilderView {
        security: StreamSecurity::Reality,
        reality_server_name: Some(sni),
        reality_dest: Some("127.0.0.1:8080"@),
        reality_fingerprint: "chrome"@,
        reality_short_id: Some("abc123"@),
        ..v
    }
}

/// Sniffing of HTTP and TLS on, or sniffing off.
pub open spec fn with_sniffing(v: BuilderView, on: bool) -> BuilderView {
    BuilderView {
        sniffing_enabled: on,
        sniffing_http: on,
        sniffing_tls: on,
        sniffing_quic: false,
        ..v
    }
}

/// The endpoint part of a template.
pub open spec fn with_endpoint(
    v: BuilderView,
    protocol: InboundProtocol,
    port: u16,
    listen: Seq<char>,
    tag: Seq<char>,
    transport: TransportNetwork,
) -> BuilderView {
    BuilderView { protocol, port, listen, tag: Some(tag), transport, ..v }
}

/// What applying a template does to the builder's fields, given the fresh
/// UUID and password it draws. Fields a template does not name keep their
/// values.
pub open spec fn apply_template_view(v: BuilderView, t: InboundTemplate, uuid: Seq<char>, pw: Seq<char>) -> BuilderView {
    match t {
        InboundTemplate::VlessWsTls => {
            let a = with_tls(with_endpoint(v, InboundProtocol::VLess, 443, "0.0.0.0"@, "vless-ws-tls"@, TransportNetwork::Ws));
            with_sniffing(BuilderView { ws_path: Some("/ws"@), ws_host: Some("your-domain.com"@), uuid: Some(uuid), vless_flow: None, ..a }, true)
        },
        InboundTemplate::VlessWsReality => {
            let a = with_reality(with_endpoint(v, InboundProtocol::VLess, 443, "0.0.0.0"@, "vless-ws-reality"@, TransportNetwork::Ws), "www.microsoft.com"@);
            with_sniffing(BuilderView { ws_path: Some("/ws"@), uuid: Some(uuid), vless_flow: Some("xtls-rprx-vision"@), ..a }, true)
        },
        InboundTemplate::VlessGrpcReality => {
            let a = with_reality(with_endpoint(v, InboundProtocol::VLess, 443, "0.0.0.0"@, "vless-grpc-reality"@, TransportNetwork::Grpc), "www.google.com"@);
            with_sniffing(BuilderView { grpc_service_name: Some("TunService"@), grpc_multi_mode: true, uuid: Some(uuid), vless_flow: Some("xtls-rprx-vision"@), ..a }, true)
        },
        InboundTemplate::VlessTcpXtlVision => {
            let a = with_tls(with_endpoint(v, InboundProtocol::VLess, 443, "0.0.0.0"@, "vless-tcp-xtls"@, TransportNetwork::Tcp));
            with_sniffing(BuilderView { uuid: Some(uuid), vless_flow: Some("xtls-rprx-vision"@), ..a }, false)
        },
        InboundTemplate::VMessWsTls => {
            let a = with_tls(with_endpoint(v, InboundProtocol::VMess, 443, "0.0.0.0"@, "vmess-ws-tls"@, TransportNetwork::Ws));
            with_sniffing(BuilderView { ws_path: Some("/ws"@), ws_host: Some("your-domain.com"@), uuid: Some(uuid), ..a }, true)
        },
        InboundTemplate::VMessWsCdn => {
            let a = with_endpoint(v, InboundProtocol::VMess, 80, "0.0.0.0"@, "vmess-ws-cdn"@, TransportNetwork::Ws);
            with_sniffing(BuilderView { ws_path: Some("/ws"@), ws_host: Some("your-cdn-domain.com"@), security: StreamSecurity::NoSecurity, uuid: Some(uuid), ..a }, true)
        },
        InboundTemplate::VMessGrpcTls => {
            let a = with_tls(with_endpoint(v, InboundProtocol::VMess, 443, "0.0.0.0"@, "vmess-grpc-tls"@, TransportNetwork::Grpc));
            with_sniffing(BuilderView { grpc_service_name: Some("TunService"@), grpc_multi_mode: true, uuid: Some(uuid), ..a }, true)
        },
        InboundTemplate::TrojanWsTls => {
            let a = with_tls(with_endpoint(v, InboundProtocol::Trojan, 443, "0.0.0.0"@, "trojan-ws-tls"@, TransportNetwork::Ws));
            with_sniffing(BuilderView { ws_path: Some("/trojan"@), password: Some(pw), ..a }, true)
        },
        InboundTemplate::TrojanGrpcTls => {
            let a = with_tls(with_endpoint(v, InboundProtocol::Trojan, 443, "0.0.0.0"@, "trojan-grpc-tls"@, TransportNetwork::Grpc));
            with_sniffing(BuilderView { grpc_service_name: Some("TunService"@), grpc_multi_mode: true, password: Some(pw), ..a }, true)
        },
        InboundTemplate::ShadowsocksWsTls => {
            let a = with_tls(with_endpoint(v, InboundProtocol::Shadowsocks, 443, "0.0.0.0"@, "ss-ws-tls"@, TransportNetwork::Ws));
            with_sniffing(BuilderView { ws_path: Some("/ss"@), ss_method: "aes-256-gcm"@, password: Some(pw), ..a }, true)
        },
        InboundTemplate::VlessHttpUpgradeReality => {
            let a = with_reality(with_endpoint(v, InboundProtocol::VLess, 443, "0.0.0.0"@, "vless-hup-reality"@, TransportNetwork::HttpUpgrade), "www.microsoft.com"@);
            with_sniffing(BuilderView { ws_path: Some("/"@), uuid: Some(uuid), vless_flow: Some("xtls-rprx-vision"@), ..a }, true)
        },
        InboundTemplate::SocksLocal => {
            let a = with_endpoint(v, InboundProtocol::Socks, 1080, "127.0.0.1"@, "socks-in"@, TransportNetwork::Tcp);
            with_sniffing(BuilderView { security: StreamSecurity::NoSecurity, ..a }, false)
        },
        InboundTemplate::HttpLocal => {
            let a = with_endpoint(v, InboundProtocol::Http, 8080, "127.0.0.1"@, "http-in"@, TransportNetwork::Tcp);
            with_sniffing(BuilderView { security: StreamSecurity::NoSecurity, http_user: Some("admin"@), http_pass: Some(pw), ..a }, false)
        },
        InboundTemplate::Custom => v,
    }
}

/// The first 16 hexadecimal digits of some 64-bit value: 16 characters.
pub open spec fn is_password_text(p: Seq<char>) -> bool {
    p.len() == 16 && exists|h: u64| p == hex_digits(h as nat, 16)
}

/// The builder `default` gives, with `u` as its UUID: a VMess inbound on
/// `0.0.0.0:443` over plain TCP, sniffing HTTP and TLS, Chrome's
/// fingerprint and `aes-256-gcm` for Shadowsocks; nothing else set.
pub open spec fn default_view(u: Seq<char>) -> BuilderView {
    BuilderView {
        protocol: InboundProtocol::VMess,
        port: 443,
        listen: "0.0.0.0"@,
        tag: None,
        transport: TransportNetwork::Tcp,
        security: StreamSecurity::NoSecurity,
        ws_path: None,
        ws_host: None,
        grpc_service_name: None,
        grpc_multi_mode: false,
        tls_server_name: None,
        tls_cert_path: None,
        tls_key_path: None,
        reality_server_name: None,
        reality_dest: None,
        reality_public_key: None,
        reality_private_key: None,
        reality_short_id: None,
        reality_fingerprint: "chrome"@,
        sniffing_enabled: true,
        sniffing_http: true,
        sniffing_tls: true,
        sniffing_quic: false,
        sniffing_route_only: false,
        uuid: Some(u),
        vless_flow: None,
        password: None,
        email: None,
        ss_method: "aes-256-gcm"@,
        http_user: None,
        http_pass: None,
    }
}

/// `v` is a default builder: `default_view` of a fresh UUID.
pub open spec fn is_default_builder(v: BuilderView) -> bool {
    v.uuid matches Some(u) && fresh_uuid(u) && v == default_view(u)
}

impl Default for InboundConfigBuilder {
    /// A VMess inbound on `0.0.0.0:443` over plain TCP with a fresh UUID
    /// (see `default_view`).
    fn default() -> (r: Self)
        ensures
            is_default_builder(r@),
    {
        InboundConfigBuilder {
            protocol: InboundProtocol::VMess,
            port: 443,
            listen: lit("0.0.0.0"),
            tag: None,
            transport: TransportNetwork::Tcp,
            security: StreamSecurity::NoSecurity,
            ws_path: None,
            ws_host: None,
            grpc_service_name: None,
            grpc_multi_mode: false,
            tls_server_name: None,
            tls_cert_path: None,
            tls_key_path: None,
            reality_server_name: None,
            reality_dest: None,
            reality_public_key: None,
            reality_private_key: None,
            reality_short_id: None,
            reality_fingerprint: lit("chrome"),
            sniffing_enabled: true,
            sniffing_http: true,
            sniffing_tls: true,
            sniffing_quic: false,
            sniffing_route_only: false,
            uuid: Some(new_uuid_v4()),
            vless_flow: None,
            password: None,
            email: None,
            ss_method: lit("aes-256-gcm"),
            http_user: None,
            http_pass: None,
        }
    }
}

impl InboundConfigBuilder {
    fn set_tls(&mut self)
        ensures
            final(self)@ == with_tls(old(self)@),
    {
        self.security = StreamSecurity::Tls;
        self.tls_server_name = Some(lit("your-domain.com"));
        self.tls_cert_path = Some(lit("/etc/xray/certs/fullchain.pem"));
        self.tls_key_path = Some(lit("/etc/xray/certs/privkey.pem"));
        assert(self@ =~= with_tls(old(self)@));
    }

    fn set_reality(&mut self, sni: &str)
        ensures
            final(self)@ == with_reality(old(self)@, sni@),
    {
        self.security = StreamSecurity::Reality;
        self.reality_server_name = Some(lit(sni));
        self.reality_dest = Some(lit("127.0.0.1:8080"));
        self.reality_fingerprint = lit("chrome");
        self.reality_short_id = Some(lit("abc123"));
        assert(self@ =~= with_reality(old(self)@, sni@));
    }

    fn set_sniffing(&mut self, on: bool)
        ensures
            final(self)@ == with_sniffing(old(self)@, on),
    {
        self.sniffing_enabled = on;
        self.sniffing_http = on;
        self.sniffing_tls = on;
        self.sniffing_quic = false;
        assert(self@ =~= with_sniffing(old(self)@, on));
    }

    fn set_endpoint(&mut self, protocol: InboundProtocol, port: u16, listen: &str, tag: &str, transport: TransportNetwork)
        ensures
            final(self)@ == with_endpoint(old(self)@, protocol, port, listen@, tag@, transport),
    {
        self.protocol = protocol;
        self.port = port;
        self.listen = lit(listen);
        self.tag = Some(lit(tag));
        self.transport = transport;
        assert(self@ =~= with_endpoint(old(self)@, protocol, port, listen@, tag@, transport));
    }

    /// A fresh password: the first 16 hexadecimal digits of the hash of a
    /// fresh UUID, zero-padded where the hash has fewer digits.
    fn gen_password() -> (r: String)
        ensures
            is_password_text(r@),
    {
        let seed = new_uuid_v4();
        let h = default_hash(seed.as_str());
        let r = hex16(h);
        assert(r@ == hex_digits(h as nat, 16));
        r
    }

    /// Fills in the fields of a preset template (see
    /// `apply_template_view`), with a fresh UUID and, for Trojan,
    /// Shadowsocks and HTTP, a fresh password.
    #[verifier::rlimit(80)]
    pub fn apply_template(&mut self, template: &InboundTemplate)
        ensures
            exists|u: Seq<char>, p: Seq<char>|
                #![trigger apply_template_view(old(self)@, *template, u, p)]
                fresh_uuid(u) && is_password_text(p)
                && final(self)@ == apply_template_view(old(self)@, *template, u, p),
    {
        let uuid = new_uuid_v4();
        let ghost mut pw: Seq<char> = hex_digits(0, 16);
        proof { lemma_hex_digits_len(0, 16); }
        let ghost start = self@;
        match template {
            InboundTemplate::VlessWsTls => {
                self.set_endpoint(InboundProtocol::VLess, 443, "0.0.0.0", "vless-ws-tls", TransportNetwork::Ws);
                self.set_tls();
                self.ws_path = Some(lit("/ws"));
                self.ws_host = Some(lit("your-domain.com"));
                self.uuid = Some(uuid);
                self.vless_flow = None;
                self.set_sniffing(true);
                assert(self@ =~= apply_template_view(start, *template, uuid@, pw));
            },
            InboundTemplate::VlessWsReality => {
                self.set_endpoint(InboundProtocol::VLess, 443, "0.0.0.0", "vless-ws-reality", TransportNetwork::Ws);
                self.set_reality("www.microsoft.com");
                self.ws_path = Some(lit("/ws"));
                self.uuid = Some(uuid);
                self.vless_flow = Some(lit("xtls-rprx-vision"));
                self.set_sniffing(true);
                assert(self@ =~= apply_template_view(start, *template, uuid@, pw));
            },
            InboundTemplate::VlessGrpcReality => {
                self.set_endpoint(InboundProtocol::VLess, 443, "0.0.0.0", "vless-grpc-reality", TransportNetwork::Grpc);
                self.set_reality("www.google.com");
                self.grpc_service_name = Some(lit("TunService"));
                self.grpc_multi_mode = true;
                self.uuid = Some(uuid);
                self.vless_flow = Some(lit("xtls-rprx-vision"));
                self.set_sniffing(true);
                assert(self@ =~= apply_template_view(start, *template, uuid@, pw));
            },
            InboundTemplate::VlessTcpXtlVision => {
                self.set_endpoint(InboundProtocol::VLess, 443, "0.0.0.0", "vless-tcp-xtls", TransportNetwork::Tcp);
                self.set_tls();
                self.uuid = Some(uuid);
                self.vless_flow = Some(lit("xtls-rprx-vision"));
                self.set_sniffing(false);
                assert(self@ =~= apply_template_view(start, *template, uuid@, pw));
            },
            InboundTemplate::VMessWsTls => {
                self.set_endpoint(InboundProtocol::VMess, 443, "0.0.0.0", "vmess-ws-tls", TransportNetwork::Ws);
                self.set_tls();
                self.ws_path = Some(lit("/ws"));
                self.ws_host = Some(lit("your-domain.com"));
                self.uuid = Some(uuid);
                self.set_sniffing(true);
                assert(self@ =~= apply_template_view(start, *template, uuid@, pw));
            },
            InboundTemplate::VMessWsCdn => {
                self.set_endpoint(InboundProtocol::VMess, 80, "0.0.0.0", "vmess-ws-cdn", TransportNetwork::Ws);
                self.ws_path = Some(lit("/ws"));
                self.ws_host = Some(lit("your-cdn-domain.com"));
                self.security = StreamSecurity::NoSecurity;
                self.uuid = Some(uuid);
                self.set_sniffing(true);
                assert(self@ =~= apply_template_view(start, *template, uuid@, pw));
            },
            InboundTemplate::VMessGrpcTls => {
                self.set_endpoint(InboundProtocol::VMess, 443, "0.0.0.0", "vmess-grpc-tls", TransportNetwork::Grpc);
                self.set_tls();
                self.grpc_service_name = Some(lit("TunService"));
                self.grpc_multi_mode = true;
                self.uuid = Some(uuid);
                self.set_sniffing(true);
                assert(self@ =~= apply_template_view(start, *template, uuid@, pw));
            },
            InboundTemplate::TrojanWsTls => {
                self.set_endpoint(InboundProtocol::Trojan, 443, "0.0.0.0", "trojan-ws-tls", TransportNetwork::Ws);
                self.set_tls();
                self.ws_path = Some(lit("/trojan"));
                let p = Self::gen_password();
                proof { pw = p@; }
                self.password = Some(p);
                self.set_sniffing(true);
                assert(self@ =~= apply_template_view(start, *template, uuid@, pw));
            },
            InboundTemplate::TrojanGrpcTls => {
                self.set_endpoint(InboundProtocol::Trojan, 443, "0.0.0.0", "trojan-grpc-tls", TransportNetwork::Grpc);
                self.set_tls();
                self.grpc_service_name = Some(lit("TunService"));
                self.grpc_multi_mode = true;
                let p = Self::gen_password();
                proof { pw = p@; }
                self.password = Some(p);
                self.set_sniffing(true);
                assert(self@ =~= apply_template_view(start, *template, uuid@, pw));
            },
            InboundTemplate::ShadowsocksWsTls => {
                self.set_endpoint(InboundProtocol::Shadowsocks, 443, "0.0.0.0", "ss-ws-tls", TransportNetwork::Ws);
                self.set_tls();
                self.ws_path = Some(lit("/ss"));
                self.ss_method = lit("aes-256-gcm");
                let p = Self::gen_password();
                proof { pw = p@; }
                self.password = Some(p);
                self.set_sniffing(true);
                assert(self@ =~= apply_template_view(start, *template, uuid@, pw));
            },
            InboundTemplate::VlessHttpUpgradeReality => {
                self.set_endpoint(InboundProtocol::VLess, 443, "0.0.0.0", "vless-hup-reality", TransportNetwork::HttpUpgrade);
                self.set_reality("www.microsoft.com");
                self.ws_path = Some(lit("/"));
                self.uuid = Some(uuid);
                self.vless_flow = Some(lit("xtls-rprx-vision"));
                self.set_sniffing(true);
                assert(self@ =~= apply_template_view(start, *template, uuid@, pw));
            },
            InboundTemplate::SocksLocal => {
                self.set_endpoint(InboundProtocol::Socks, 1080, "127.0.0.1", "socks-in", TransportNetwork::Tcp);
                self.security = StreamSecurity::NoSecurity;
                self.set_sniffing(false);
                assert(self@ =~= apply_template_view(start, *template, uuid@, pw));
            },
            InboundTemplate::HttpLocal => {
                self.set_endpoint(InboundProtocol::Http, 8080, "127.0.0.1", "http-in", TransportNetwork::Tcp);
                self.security = StreamSecurity::NoSecurity;
                self.http_user = Some(lit("admin"));
                let p = Self::gen_password();
                proof { pw = p@; }
                self.http_pass = Some(p);
                self.set_sniffing(false);
                assert(self@ =~= apply_template_view(start, *template, uuid@, pw));
            },
            InboundTemplate::Custom => {},
        }
        assert(self@ =~= apply_template_view(start, *template, uuid@, pw));
    }
}

/// The protocols sniffed: HTTP, TLS and QUIC, each where it is switched on.
pub open spec fn sniff_list(b: BuilderView) -> Seq<Seq<char>> {
    let a: Seq<Seq<char>> = if b.sniffing_http { seq!["http"@] } else { Seq::empty() };
    let c = if b.sniffing_tls { a.push("tls"@) } else { a };
    if b.sniffing_quic { c.push("quic"@) } else { c }
}

/// The stream settings an inbound is built with: the chosen transport and
/// security, TLS settings with one certificate for TLS, Reality settings for
/// Reality, WebSocket settings (path `/ws` by default) for WebSocket and gRPC
/// settings (service `TunService` by default) for gRPC.
pub open spec fn stream_built_from(ss: StreamSettings, b: BuilderView) -> bool {
    &&& ss.network == b.transport
    &&& ss.security == b.security
    &&& (b.security == StreamSecurity::Tls) == (ss.tls_settings is Some)
    &&& ss.tls_settings matches Some(t) ==> {
        &&& ot(t.server_name) == b.tls_server_name
        &&& t.certificates@.len() == 1
        &&& t.certificates@[0].certificate_file@ == or_empty(b.tls_cert_path)
        &&& t.certificates@[0].key_file@ == or_empty(b.tls_key_path)
        &&& t.alpn@.len() == 0
        &&& t.min_version is None
    }
    &&& (b.security == StreamSecurity::Reality) == (ss.reality_settings is Some)
    &&& ss.reality_settings matches Some(r) ==> {
        &&& r.server_name@ == or_empty(b.reality_server_name)
        &&& r.public_key@ == or_empty(b.reality_public_key)
        &&& r.private_key@ == or_empty(b.reality_private_key)
        &&& texts(r.short_ids@) == match b.reality_short_id {
            Some(id) => seq![id],
            None => Seq::empty(),
        }
        &&& r.fingerprint@ == b.reality_fingerprint
        &&& r.spider_x is None
        &&& r.dest@ == or_empty(b.reality_dest)
    }
    &&& (b.transport == TransportNetwork::Ws) == (ss.ws_settings is Some)
    &&& ss.ws_settings matches Some(w) ==> {
        &&& w.path@ == or_text(b.ws_path, "/ws"@)
        &&& ot(w.host) == b.ws_host
        &&& w.headers is None
    }
    &&& (b.transport == TransportNetwork::Grpc) == (ss.grpc_settings is Some)
    &&& ss.grpc_settings matches Some(g) ==> {
        &&& g.service_name@ == or_text(b.grpc_service_name, "TunService"@)
        &&& g.multi_mode == b.grpc_multi_mode
        &&& g.authority is None
    }
    &&& ss.httpupgrade_settings is None
    &&& ss.tcp_settings is None
    &&& ss.kcp_settings is None
    &&& ss.quic_settings is None
}

/// The protocol settings an inbound is built with: one client or account
/// from the builder's UUID, password, flow, e-mail, method or credentials;
/// SOCKS without authentication.
pub open spec fn settings_built_from(s: ProtocolSettings, b: BuilderView) -> bool {
    match b.protocol {
        InboundProtocol::VMess => s matches ProtocolSettings::VMess(v) && v.clients@.len() == 1 && {
            let c = v.clients@[0];
            &&& c.id@ == or_empty(b.uuid)
            &&& c.security@ == "auto"@
            &&& ot(c.email) == b.email
            &&& c.level is None
        },
        InboundProtocol::VLess => s matches ProtocolSettings::VLess(v) && v.clients@.len() == 1 && {
            let c = v.clients@[0];
            &&& c.id@ == or_empty(b.uuid)
            &&& ot(c.flow) == b.vless_flow
            &&& ot(c.email) == b.email
            &&& c.level is None
            &&& v.decryption@ == "none"@
        },
        InboundProtocol::Trojan => s matches ProtocolSettings::Trojan(v) && v.clients@.len() == 1 && {
            let c = v.clients@[0];
            &&& c.password@ == or_empty(b.password)
            &&& ot(c.email) == b.email
            &&& c.level is None
            &&& v.fallbacks@.len() == 0
        },
        InboundProtocol::Shadowsocks => s matches ProtocolSettings::Shadowsocks(v) && {
            &&& v.method@ == b.ss_method
            &&& v.password@ == or_empty(b.password)
            &&& v.network@ == "tcp,udp"@
            &&& ot(v.email) == b.email
            &&& v.level is None
        },
        InboundProtocol::Http => s matches ProtocolSettings::Http(v) && v.accounts@.len() == 1 && {
            &&& v.accounts@[0].user@ == or_empty(b.http_user)
            &&& v.accounts@[0].pass@ == or_empty(b.http_pass)
            &&& v.timeout == 300
            &&& !v.allow_transparent
        },
        InboundProtocol::Socks => s matches ProtocolSettings::Socks(v) && {
            &&& v.auth is NoAuth
            &&& v.udp
            &&& v.ip is None
            &&& v.user_level == 0
        },
    }
}

/// The inbound built from the builder's fields.
pub open spec fn built_from(r: InboundConfig, b: BuilderView) -> bool {
    &&& ot(r.tag) == b.tag
    &&& r.port == b.port
    &&& r.listen@ == b.listen
    &&& r.protocol == b.protocol
    &&& settings_built_from(r.settings, b)
    &&& stream_built_from(r.stream_settings, b)
    &&& r.sniffing.enabled == b.sniffing_enabled
    &&& texts(r.sniffing.dest_override@) == sniff_list(b)
    &&& r.sniffing.route_only == b.sniffing_route_only
    &&& r.sniffing.metadata_only is None
}

fn text_or(o: &Option<String>, d: &str) -> (r: String)
    ensures
        r@ == or_text(ot(*o), d@),
{
    match o {
        Some(s) => s.clone(),
        None => lit(d),
    }
}

fn text_or_empty(o: &Option<String>) -> (r: String)
    ensures
        r@ == or_empty(ot(*o)),
{
    match o {
        Some(s) => s.clone(),
        None => String::new(),
    }
}

impl InboundConfigBuilder {
    fn build_stream(&self) -> (ss: StreamSettings)
        ensures
            stream_built_from(ss, self@),
    {
        let transport = self.transport;
        let security = self.security;
        let tls_settings = if security == StreamSecurity::Tls {
            let mut certs: Vec<TlsCertificate> = Vec::new();
            certs.push(TlsCertificate {
                certificate_file: text_or_empty(&self.tls_cert_path),
                key_file: text_or_empty(&self.tls_key_path),
            });
            Some(TlsSettings {
                server_name: self.tls_server_name.clone(),
                certificates: certs,
                alpn: Vec::new(),
                min_version: None,
            })
        } else {
            None
        };
        let reality_settings = if security == StreamSecurity::Reality {
            let mut ids: Vec<String> = Vec::new();
            if let Some(id) = &self.reality_short_id {
                ids.push(id.clone());
            }
            assert(texts(ids@) =~= match self@.reality_short_id {
                Some(id) => seq![id],
                None => Seq::<Seq<char>>::empty(),
            });
            Some(RealitySettings {
                server_name: text_or_empty(&self.reality_server_name),
                public_key: text_or_empty(&self.reality_public_key),
                private_key: text_or_empty(&self.reality_private_key),
                short_ids: ids,
                fingerprint: self.reality_fingerprint.clone(),
                spider_x: None,
                dest: text_or_empty(&self.reality_dest),
            })
        } else {
            None
        };
        let ws_settings = if transport == TransportNetwork::Ws {
            Some(WsSettings { path: text_or(&self.ws_path, "/ws"), host: self.ws_host.clone(), headers: None })
        } else {
            None
        };
        let grpc_settings = if transport == TransportNetwork::Grpc {
            Some(GrpcSettings {
                service_name: text_or(&self.grpc_service_name, "TunService"),
                multi_mode: self.grpc_multi_mode,
                authority: None,
            })
        } else {
            None
        };
        StreamSettings {
            network: transport,
            security,
            tls_settings,
            reality_settings,
            ws_settings,
            grpc_settings,
            httpupgrade_settings: None,
            tcp_settings: None,
            kcp_settings: None,
            quic_settings: None,
        }
    }

    fn build_settings(&self) -> (s: ProtocolSettings)
        ensures
            settings_built_from(s, self@),
    {
        match self.protocol {
            InboundProtocol::VMess => {
                let mut clients: Vec<VMessClient> = Vec::new();
                clients.push(VMessClient {
                    id: text_or_empty(&self.uuid),
                    security: lit("auto"),
                    email: self.email.clone(),
                    level: None,
                });
                ProtocolSettings::VMess(VMessSettings { clients })
            },
            InboundProtocol::VLess => {
                let mut clients: Vec<VLessClient> = Vec::new();
                clients.push(VLessClient {
                    id: text_or_empty(&self.uuid),
                    flow: self.vless_flow.clone(),
                    email: self.email.clone(),
                    level: None,
                });
                ProtocolSettings::VLess(VLessSettings { clients, decryption: lit("none") })
            },
            InboundProtocol::Trojan => {
                let mut clients: Vec<TrojanClient> = Vec::new();
                clients.push(TrojanClient {
                    password: text_or_empty(&self.password),
                    email: self.email.clone(),
                    level: None,
                });
                ProtocolSettings::Trojan(TrojanSettings { clients, fallbacks: Vec::new() })
            },
            InboundProtocol::Shadowsocks => ProtocolSettings::Shadowsocks(ShadowsocksSettings {
                method: self.ss_method.clone(),
                password: text_or_empty(&self.password),
                network: lit("tcp,udp"),
                email: self.email.clone(),
                level: None,
            }),
            InboundProtocol::Http => {
                let mut accounts: Vec<HttpAccount> = Vec::new();
                accounts.push(HttpAccount {
                    user: text_or_empty(&self.http_user),
                    pass: text_or_empty(&self.http_pass),
                });
                ProtocolSettings::Http(HttpSettings { accounts, timeout: 300, allow_transparent: false })
            },
            InboundProtocol::Socks => ProtocolSettings::Socks(SocksSettings {
                auth: SocksAuth::NoAuth {},
                udp: true,
                ip: None,
                user_level: 0,
            }),
        }
    }

    /// The inbound the builder describes (see `built_from`).
    pub fn build(&self) -> (r: InboundConfig)
        ensures
            built_from(r, self@),
    {
        let stream_settings = self.build_stream();
        let mut sniff: Vec<String> = Vec::new();
        if self.sniffing_http {
            sniff.push(lit("http"));
        }
        if self.sniffing_tls {
            sniff.push(lit("tls"));
        }
        if self.sniffing_quic {
            sniff.push(lit("quic"));
        }
        assert(texts(sniff@) =~= sniff_list(self@));
        let settings = self.build_settings();
        InboundConfig {
            tag: self.tag.clone(),
            port: self.port,
            listen: self.listen.clone(),
            protocol: self.protocol,
            settings,
            stream_settings,
            sniffing: SniffingConfig {
                enabled: self.sniffing_enabled,
                dest_override: sniff,
                route_only: self.sniffing_route_only,
                metadata_only: None,
            },
        }
    }
}

/// The word a template's name uses for a transport.
pub open spec fn transport_word(n: TransportNetwork) -> Seq<char> {
    match n {
        TransportNetwork::Tcp => "TCP"@,
        TransportNetwork::Ws => "WS"@,
        TransportNetwork::Grpc => "gRPC"@,
        TransportNetwork::HttpUpgrade => "HTTPUpgrade"@,
        _ => Seq::empty(),
    }
}

/// Every preset named after a transport sets the builder to the transport
/// its name announces: its name contains the word for the transport the
/// template sets (`gRPC`, `WS`, `TCP` or `HTTPUpgrade`). The local SOCKS
/// and HTTP proxies, whose names mention no transport, use plain TCP.
pub proof fn lemma_template_transport_named(v: BuilderView, t: InboundTemplate, u: Seq<char>, p: Seq<char>)
    requires
        t != InboundTemplate::Custom,
    ensures
        t != InboundTemplate::SocksLocal && t != InboundTemplate::HttpLocal ==> contains_text(
            t.name(),
            transport_word(apply_template_view(v, t, u, p).transport),
        ),
        t == InboundTemplate::SocksLocal || t == InboundTemplate::HttpLocal
            ==> apply_template_view(v, t, u, p).transport == TransportNetwork::Tcp,
{
    let r = apply_template_view(v, t, u, p);
    match t {
        InboundTemplate::VlessWsTls => {
            reveal_strlit("VLESS + WS + TLS");
            reveal_strlit("WS");
            assert(t.name().subrange(8, 10) =~= transport_word(r.transport));
            assert(occurs_at(t.name(), transport_word(r.transport), 8));
        },
        InboundTemplate::VlessWsReality => {
            reveal_strlit("VLESS + WS + Reality");
            reveal_strlit("WS");
            assert(t.name().subrange(8, 10) =~= transport_word(r.transport));
            assert(occurs_at(t.name(), transport_word(r.transport), 8));
        },
        InboundTemplate::VlessGrpcReality => {
            reveal_strlit("VLESS + gRPC + Reality");
            reveal_strlit("gRPC");
            assert(t.name().subrange(8, 12) =~= transport_word(r.transport));
            assert(occurs_at(t.name(), transport_word(r.transport), 8));
        },
        InboundTemplate::VlessTcpXtlVision => {
            reveal_strlit("VLESS + TCP + XTLS Vision");
            reveal_strlit("TCP");
            assert(t.name().subrange(8, 11) =~= transport_word(r.transport));
            assert(occurs_at(t.name(), transport_word(r.transport), 8));
        },
        InboundTemplate::VMessWsTls => {
            reveal_strlit("VMess + WS + TLS");
            reveal_strlit("WS");
            assert(t.name().subrange(8, 10) =~= transport_word(r.transport));
            assert(occurs_at(t.name(), transport_word(r.transport), 8));
        },
        InboundTemplate::VMessWsCdn => {
            reveal_strlit("VMess + WS (CDN)");
            reveal_strlit("WS");
            assert(t.name().subrange(8, 10) =~= transport_word(r.transport));
            assert(occurs_at(t.name(), transport_word(r.transport), 8));
        },
        InboundTemplate::VMessGrpcTls => {
            reveal_strlit("VMess + gRPC + TLS");
            reveal_strlit("gRPC");
            assert(t.name().subrange(8, 12) =~= transport_word(r.transport));
            assert(occurs_at(t.name(), transport_word(r.transport), 8));
        },
        InboundTemplate::TrojanWsTls => {
            reveal_strlit("Trojan + WS + TLS");
            reveal_strlit("WS");
            assert(t.name().subrange(9, 11) =~= transport_word(r.transport));
            assert(occurs_at(t.name(), transport_word(r.transport), 9));
        },
        InboundTemplate::TrojanGrpcTls => {
            reveal_strlit("Trojan + gRPC + TLS");
            reveal_strlit("gRPC");
            assert(t.name().subrange(9, 13) =~= transport_word(r.transport));
            assert(occurs_at(t.name(), transport_word(r.transport), 9));
        },
        InboundTemplate::ShadowsocksWsTls => {
            reveal_strlit("Shadowsocks + WS + TLS");
            reveal_strlit("WS");
            assert(t.name().subrange(14, 16) =~= transport_word(r.transport));
            assert(occurs_at(t.name(), transport_word(r.transport), 14));
        },
        InboundTemplate::VlessHttpUpgradeReality => {
            reveal_strlit("VLESS + HTTPUpgrade + Reality");
            reveal_strlit("HTTPUpgrade");
            assert(t.name().subrange(8, 19) =~= transport_word(r.transport));
            assert(occurs_at(t.name(), transport_word(r.transport), 8));
        },
        _ => {},
    }
}

/// The word a template's name uses for a protocol.
pub open spec fn protocol_word(p: InboundProtocol) -> Seq<char> {
    match p {
        InboundProtocol::VMess => "VMess"@,
        InboundProtocol::VLess => "VLESS"@,
        InboundProtocol::Trojan => "Trojan"@,
        InboundProtocol::Shadowsocks => "Shadowsocks"@,
        InboundProtocol::Http => "HTTP"@,
        InboundProtocol::Socks => "SOCKS"@,
    }
}

/// The word a template's name uses for a security layer.
pub open spec fn security_word(s: StreamSecurity) -> Seq<char> {
    match s {
        StreamSecurity::Tls => "TLS"@,
        StreamSecurity::Reality => "Reality"@,
        StreamSecurity::NoSecurity => Seq::empty(),
    }
}

/// Every preset sets the protocol its name announces, and a preset whose
/// name announces TLS or Reality sets that security; the CDN preset and
/// the local proxies, whose names announce no security, use none.
pub proof fn lemma_template_protocol_and_security_named(v: BuilderView, t: InboundTemplate, u: Seq<char>, p: Seq<char>)
    requires
        t != InboundTemplate::Custom,
    ensures
        contains_text(t.name(), protocol_word(apply_template_view(v, t, u, p).protocol)),
        t != InboundTemplate::VMessWsCdn && t != InboundTemplate::SocksLocal && t != InboundTemplate::HttpLocal
            ==> contains_text(t.name(), security_word(apply_template_view(v, t, u, p).security))
                && apply_template_view(v, t, u, p).security != StreamSecurity::NoSecurity,
        t == InboundTemplate::VMessWsCdn || t == InboundTemplate::SocksLocal || t == InboundTemplate::HttpLocal
            ==> apply_template_view(v, t, u, p).security == StreamSecurity::NoSecurity,
{
    let r = apply_template_view(v, t, u, p);
    match t {
        InboundTemplate::VlessWsTls => {
            reveal_strlit("VLESS + WS + TLS");
            reveal_strlit("VLESS");
            assert(t.name().subrange(0, 5) =~= protocol_word(r.protocol));
            assert(occurs_at(t.name(), protocol_word(r.protocol), 0));
            reveal_strlit("TLS");
            assert(t.name().subrange(13, 16) =~= security_word(r.security));
            assert(occurs_at(t.name(), security_word(r.security), 13));
        },
        InboundTemplate::VlessWsReality => {
            reveal_strlit("VLESS + WS + Reality");
            reveal_strlit("VLESS");
            assert(t.name().subrange(0, 5) =~= protocol_word(r.protocol));
            assert(occurs_at(t.name(), protocol_word(r.protocol), 0));
            reveal_strlit("Reality");
            assert(t.name().subrange(13, 20) =~= security_word(r.security));
            assert(occurs_at(t.name(), security_word(r.security), 13));
        },
        InboundTemplate::VlessGrpcReality => {
            reveal_strlit("VLESS + gRPC + Reality");
            reveal_strlit("VLESS");
            assert(t.name().subrange(0, 5) =~= protocol_word(r.protocol));
            assert(occurs_at(t.name(), protocol_word(r.protocol), 0));
            reveal_strlit("Reality");
            assert(t.name().subrange(15, 22) =~= security_word(r.security));
            assert(occurs_at(t.name(), security_word(r.security), 15));
        },
        InboundTemplate::VlessTcpXtlVision => {
            reveal_strlit("VLESS + TCP + XTLS Vision");
            reveal_strlit("VLESS");
            assert(t.name().subrange(0, 5) =~= protocol_word(r.protocol));
            assert(occurs_at(t.name(), protocol_word(r.protocol), 0));
            reveal_strlit("TLS");
            assert(t.name().subrange(15, 18) =~= security_word(r.security));
            assert(occurs_at(t.name(), security_word(r.security), 15));
        },
        InboundTemplate::VMessWsTls => {
            reveal_strlit("VMess + WS + TLS");
            reveal_strlit("VMess");
            assert(t.name().subrange(0, 5) =~= protocol_word(r.protocol));
            assert(occurs_at(t.name(), protocol_word(r.protocol), 0));
            reveal_strlit("TLS");
            assert(t.name().subrange(13, 16) =~= security_word(r.security));
            assert(occurs_at(t.name(), security_word(r.security), 13));
        },
        InboundTemplate::VMessWsCdn => {
            reveal_strlit("VMess + WS (CDN)");
            reveal_strlit("VMess");
            assert(t.name().subrange(0, 5) =~= protocol_word(r.protocol));
            assert(occurs_at(t.name(), protocol_word(r.protocol), 0));
        },
        InboundTemplate::VMessGrpcTls => {
            reveal_strlit("VMess + gRPC + TLS");
            reveal_strlit("VMess");
            assert(t.name().subrange(0, 5) =~= protocol_word(r.protocol));
            assert(occurs_at(t.name(), protocol_word(r.protocol), 0));
            reveal_strlit("TLS");
            assert(t.name().subrange(15, 18) =~= security_word(r.security));
            assert(occurs_at(t.name(), security_word(r.security), 15));
        },
        InboundTemplate::TrojanWsTls => {
            reveal_strlit("Trojan + WS + TLS");
            reveal_strlit("Trojan");
            assert(t.name().subrange(0, 6) =~= protocol_word(r.protocol));
            assert(occurs_at(t.name(), protocol_word(r.protocol), 0));
            reveal_strlit("TLS");
            assert(t.name().subrange(14, 17) =~= security_word(r.security));
            assert(occurs_at(t.name(), security_word(r.security), 14));
        },
        InboundTemplate::TrojanGrpcTls => {
            reveal_strlit("Trojan + gRPC + TLS");
            reveal_strlit("Trojan");
            assert(t.name().subrange(0, 6) =~= protocol_word(r.protocol));
            assert(occurs_at(t.name(), protocol_word(r.protocol), 0));
            reveal_strlit("TLS");
            assert(t.name().subrange(16, 19) =~= security_word(r.security));
            assert(occurs_at(t.name(), security_word(r.security), 16));
        },
        InboundTemplate::ShadowsocksWsTls => {
            reveal_strlit("Shadowsocks + WS + TLS");
            reveal_strlit("Shadowsocks");
            assert(t.name().subrange(0, 11) =~= protocol_word(r.protocol));
            assert(occurs_at(t.name(), protocol_word(r.protocol), 0));
            reveal_strlit("TLS");
            assert(t.name().subrange(19, 22) =~= security_word(r.security));
            assert(occurs_at(t.name(), security_word(r.security), 19));
        },
        InboundTemplate::VlessHttpUpgradeReality => {
            reveal_strlit("VLESS + HTTPUpgrade + Reality");
            reveal_strlit("VLESS");
            assert(t.name().subrange(0, 5) =~= protocol_word(r.protocol));
            assert(occurs_at(t.name(), protocol_word(r.protocol), 0));
            reveal_strlit("Reality");
            assert(t.name().subrange(22, 29) =~= security_word(r.security));
            assert(occurs_at(t.name(), security_word(r.security), 22));
        },
        InboundTemplate::SocksLocal => {
            reveal_strlit("SOCKS5 本地");
            reveal_strlit("SOCKS");
            assert(t.name().subrange(0, 5) =~= protocol_word(r.protocol));
            assert(occurs_at(t.name(), protocol_word(r.protocol), 0));
        },
        InboundTemplate::HttpLocal => {
            reveal_strlit("HTTP 本地代理");
            reveal_strlit("HTTP");
            assert(t.name().subrange(0, 4) =~= protocol_word(r.protocol));
            assert(occurs_at(t.name(), protocol_word(r.protocol), 0));
        },
        _ => {},
    }
}

/// A built inbound serves one user, except a SOCKS inbound, which is built
/// without authentication and so has none.
pub proof fn lemma_built_users(r: InboundConfig, b: BuilderView)
    requires
        built_from(r, b),
    ensures
        r.users() == (if b.protocol == InboundProtocol::Socks { 0nat } else { 1nat }),
{
}

} // verus!
