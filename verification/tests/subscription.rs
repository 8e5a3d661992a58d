use xray_tui::codec::{base64_encode, json_object_string};
use base64::engine::general_purpose::STANDARD as BASE64;
use base64::Engine;
use xray_tui::model::common::SniffingConfig;
use xray_tui::model::config::{InboundConfig, InboundProtocol};
use xray_tui::model::protocol::{
    ProtocolSettings, ShadowsocksSettings, SocksAuth, SocksSettings, TrojanClient, TrojanSettings,
    VLessClient, VLessSettings, VMessClient, VMessSettings,
};
use xray_tui::model::stream::{
    RealitySettings, StreamSecurity, StreamSettings, TlsSettings, TransportNetwork, WsSettings,
};
use xray_tui::services::subscription::{urlencoding, SubscriptionService};

fn plain_stream(network: TransportNetwork, security: StreamSecurity) -> StreamSettings {
    StreamSettings {
        network,
        security,
        tls_settings: None,
        reality_settings: None,
        ws_settings: None,
        grpc_settings: None,
        httpupgrade_settings: None,
        tcp_settings: None,
        kcp_settings: None,
        quic_settings: None,
    }
}

fn make_vless_inbound() -> InboundConfig {
    let mut stream = plain_stream(TransportNetwork::Ws, StreamSecurity::Reality);
    stream.reality_settings = Some(RealitySettings {
        server_name: "www.microsoft.com".into(),
        public_key: "pub_key".into(),
        private_key: "priv_key".into(),
        short_ids: vec!["abc123".into()],
        fingerprint: "chrome".into(),
        spider_x: None,
        dest: "127.0.0.1:8080".into(),
    });
    stream.ws_settings = Some(WsSettings { path: "/ws".into(), host: None, headers: None });
    InboundConfig {
        tag: Some("test-vless".into()),
        port: 443,
        listen: "0.0.0.0".into(),
        protocol: InboundProtocol::VLess,
        settings: ProtocolSettings::VLess(VLessSettings {
            clients: vec![VLessClient {
                id: "d290f1ee-6c54-4b01-90e6-d701748f0851".into(),
                flow: Some("xtls-rprx-vision".into()),
                email: None,
                level: None,
            }],
            decryption: "none".into(),
        }),
        stream_settings: stream,
        sniffing: SniffingConfig::default(),
    }
}

#[test]
fn test_vless_share_link() {
    let inbound = make_vless_inbound();
    let link = SubscriptionService::generate_share_link(&inbound, "1.2.3.4", 0).unwrap();
    assert!(link.starts_with("vless://"));
    assert!(link.contains("d290f1ee"));
    assert!(link.contains("1.2.3.4:443"));
    assert!(link.contains("security=reality"));
    assert!(link.contains("flow=xtls-rprx-vision"));
    assert!(link.contains("test-vless"));
}

#[test]
fn test_vmess_share_link() {
    let mut stream = plain_stream(TransportNetwork::Tcp, StreamSecurity::Tls);
    stream.tls_settings = Some(TlsSettings {
        server_name: Some("vm.example.com".into()),
        certificates: vec![],
        alpn: vec![],
        min_version: None,
    });
    let inbound = InboundConfig {
        tag: Some("test-vmess".into()),
        port: 10084,
        listen: "0.0.0.0".into(),
        protocol: InboundProtocol::VMess,
        settings: ProtocolSettings::VMess(VMessSettings {
            clients: vec![VMessClient {
                id: "abc123-def456-gh789".into(),
                security: "auto".into(),
                email: None,
                level: None,
            }],
        }),
        stream_settings: stream,
        sniffing: SniffingConfig::default(),
    };
    let link = SubscriptionService::generate_share_link(&inbound, "2.3.4.5", 0).unwrap();
    assert!(link.starts_with("vmess://"));
}

#[test]
fn test_export_subscription() {
    let inbounds = vec![make_vless_inbound()];
    let sub = SubscriptionService::export_subscription(&inbounds, "1.2.3.4");
    assert!(!sub.is_empty());
    let decoded = BASE64.decode(&sub).unwrap();
    let text = String::from_utf8(decoded).unwrap();
    assert!(text.contains("vless://"));
}

#[test]
fn vmess_link_is_base64_of_sorted_json() {
    let mut stream = plain_stream(TransportNetwork::Ws, StreamSecurity::Tls);
    stream.ws_settings = Some(WsSettings { path: "/vm".into(), host: Some("cdn.example.com".into()), headers: None });
    stream.tls_settings = Some(TlsSettings {
        server_name: Some("vm.example.com".into()),
        certificates: vec![],
        alpn: vec![],
        min_version: None,
    });
    let inbound = InboundConfig {
        tag: Some("vm".into()),
        port: 8443,
        listen: "0.0.0.0".into(),
        protocol: InboundProtocol::VMess,
        settings: ProtocolSettings::VMess(VMessSettings {
            clients: vec![VMessClient { id: "id-1".into(), security: "auto".into(), email: None, level: None }],
        }),
        stream_settings: stream,
        sniffing: SniffingConfig::default(),
    };
    let link = SubscriptionService::generate_share_link(&inbound, "9.9.9.9", 0).unwrap();
    let body = link.strip_prefix("vmess://").unwrap();
    let json = String::from_utf8(BASE64.decode(body).unwrap()).unwrap();
    let v: serde_json::Value = serde_json::from_str(&json).unwrap();
    assert_eq!(v["add"], "9.9.9.9");
    assert_eq!(v["port"], "8443");
    assert_eq!(v["id"], "id-1");
    assert_eq!(v["net"], "ws");
    assert_eq!(v["path"], "/vm");
    assert_eq!(v["host"], "cdn.example.com");
    assert_eq!(v["tls"], "tls");
    assert_eq!(v["sni"], "vm.example.com");
    assert_eq!(v["ps"], "vm");
    assert_eq!(v["v"], "2");
}

#[test]
fn trojan_link_escapes_password() {
    let inbound = InboundConfig {
        tag: Some("my tag".into()),
        port: 443,
        listen: "0.0.0.0".into(),
        protocol: InboundProtocol::Trojan,
        settings: ProtocolSettings::Trojan(TrojanSettings {
            clients: vec![TrojanClient { password: "p@ss:w/rd".into(), email: None, level: None }],
            fallbacks: vec![],
        }),
        stream_settings: plain_stream(TransportNetwork::Tcp, StreamSecurity::Tls),
        sniffing: SniffingConfig::default(),
    };
    let link = SubscriptionService::generate_share_link(&inbound, "1.1.1.1", 0).unwrap();
    assert!(link.starts_with("trojan://p%40ss%3Aw%2Frd@1.1.1.1:443?"));
    assert!(link.ends_with("#my%20tag"));
}

#[test]
fn missing_user_and_socks_have_no_link() {
    let inbound = make_vless_inbound();
    assert!(SubscriptionService::generate_share_link(&inbound, "1.2.3.4", 1).is_none());
    let socks = InboundConfig {
        tag: None,
        port: 1080,
        listen: "127.0.0.1".into(),
        protocol: InboundProtocol::Socks,
        settings: ProtocolSettings::Socks(SocksSettings { auth: SocksAuth::NoAuth {}, udp: true, ip: None, user_level: 0 }),
        stream_settings: plain_stream(TransportNetwork::Tcp, StreamSecurity::NoSecurity),
        sniffing: SniffingConfig::default(),
    };
    assert!(SubscriptionService::generate_share_link(&socks, "1.2.3.4", 0).is_none());
}

#[test]
fn shadowsocks_link_encodes_method_and_password() {
    let inbound = InboundConfig {
        tag: Some("ss".into()),
        port: 8388,
        listen: "0.0.0.0".into(),
        protocol: InboundProtocol::Shadowsocks,
        settings: ProtocolSettings::Shadowsocks(ShadowsocksSettings {
            method: "aes-256-gcm".into(),
            password: "secret".into(),
            network: "tcp,udp".into(),
            email: None,
            level: None,
        }),
        stream_settings: plain_stream(TransportNetwork::Tcp, StreamSecurity::NoSecurity),
        sniffing: SniffingConfig::default(),
    };
    let link = SubscriptionService::generate_share_link(&inbound, "5.5.5.5", 0).unwrap();
    let expected = format!("ss://{}@5.5.5.5:8388#ss", BASE64.encode("aes-256-gcm:secret"));
    assert_eq!(link, expected);
}

#[test]
fn export_lists_every_user() {
    let mut inbound = make_vless_inbound();
    if let ProtocolSettings::VLess(s) = &mut inbound.settings {
        s.clients.push(VLessClient { id: "second-id".into(), flow: None, email: None, level: None });
    }
    let sub = SubscriptionService::export_subscription(&[inbound], "1.2.3.4");
    let text = String::from_utf8(BASE64.decode(&sub).unwrap()).unwrap();
    let lines: Vec<&str> = text.split('\n').collect();
    assert_eq!(lines.len(), 2);
    assert!(lines[0].contains("d290f1ee"));
    assert!(lines[1].contains("second-id"));
}

#[test]
fn urlencoding_escapes_reserved_characters_only() {
    assert_eq!(urlencoding("a b#c&d=e?f@g:h/i"), "a%20b%23c%26d%3De%3Ff%40g%3Ah%2Fi");
    assert_eq!(urlencoding("plain-text_1.2"), "plain-text_1.2");
    assert_eq!(urlencoding(""), "");
}

#[test]
fn base64_and_json_literals_follow_their_definitions() {
    assert_eq!(base64_encode("Man"), "TWFu");
    assert_eq!(base64_encode("Ma"), "TWE=");
    assert_eq!(base64_encode("M"), "TQ==");
    assert_eq!(base64_encode(""), "");
    assert_eq!(base64_encode("\u{e9}?>"), "w6k/Pg==");
    let fields = vec![
        ("a".to_string(), "x\"y\\\u{1}\n\u{8}\u{c}\r\t/\u{7f}é".to_string()),
        ("b".to_string(), String::new()),
    ];
    assert_eq!(
        json_object_string(&fields),
        "{\"a\":\"x\\\"y\\\\\\u0001\\n\\b\\f\\r\\t/\u{7f}é\",\"b\":\"\"}"
    );
    assert_eq!(json_object_string(&Vec::new()), "{}");
}

#[test]
fn export_decodes_to_the_joined_links_and_is_empty_without_inbounds() {
    assert_eq!(SubscriptionService::export_subscription(&[], "1.2.3.4"), "");
    let inbounds = vec![make_vless_inbound(), make_vless_inbound()];
    let sub = SubscriptionService::export_subscription(&inbounds, "1.2.3.4");
    let link = SubscriptionService::generate_share_link(&inbounds[0], "1.2.3.4", 0).unwrap();
    assert_eq!(BASE64.decode(&sub).unwrap(), format!("{}\n{}", link, link).into_bytes());
}
