use std::hash::{Hash, Hasher};
use xray_tui::model::common::SniffingConfig;
use xray_tui::model::config::{InboundConfig, InboundProtocol, XrayConfig};
use xray_tui::model::protocol::{ProtocolSettings, SocksAuth, SocksSettings, VLessClient, VLessSettings};
use xray_tui::model::routing::RoutingConfig;
use xray_tui::model::settings::GlobalSettings;
use xray_tui::model::ssl::CalendarDate;
use xray_tui::model::stream::{StreamSecurity, StreamSettings, TransportNetwork};
use xray_tui::services::acme::AcmeService;
use xray_tui::services::config_manager::{ConfigEntry, ConfigManager};
use xray_tui::services::error::ServiceError;
use xray_tui::services::journal::JournalService;
use xray_tui::services::storage::Storage;
use xray_tui::services::systemd::SystemdService;
use xray_tui::services::xray::XrayService;

fn plain_stream(network: TransportNetwork, security: StreamSecurity) -> StreamSettings {
    StreamSettings {
        network,
        security,
        tls_settings: None,
        reality_settings: None,
        ws_settings: None,
        grpc_settings: None,
        httpupgrade_settings: None,
        tcp_settings: None,
        kcp_settings: None,
        quic_settings: None,
    }
}

fn vless_inbound(port: u16, listen: &str) -> InboundConfig {
    InboundConfig {
        tag: Some("test".into()),
        port,
        listen: listen.into(),
        protocol: InboundProtocol::VLess,
        settings: ProtocolSettings::VLess(VLessSettings {
            clients: vec![VLessClient { id: "6a2f2b4c-1111-4222-8333-944455556666".into(), flow: None, email: None, level: None }],
            decryption: "none".into(),
        }),
        stream_settings: plain_stream(TransportNetwork::Tcp, StreamSecurity::NoSecurity),
        sniffing: SniffingConfig::default(),
    }
}

#[test]
fn test_generate_and_validate() {
    let settings = GlobalSettings::default_for_home("/root");
    let svc = XrayService::new(settings);
    let inbound = vless_inbound(443, "0.0.0.0");
    let routing = RoutingConfig::default();
    let config = svc.generate_config(&[inbound], &routing);
    assert_eq!(config.inbounds.len(), 1);
    assert!(svc.validate_config(&config).is_ok());
    assert_eq!(config.inbounds[0].tag.as_deref(), Some("test"));
}

#[test]
fn test_validate_rejects_empty_listen() {
    let settings = GlobalSettings::default_for_home("/root");
    let svc = XrayService::new(settings);
    let mut config = XrayConfig::from_inbounds(&[], &RoutingConfig::default());
    let inbound = InboundConfig {
        tag: None,
        port: 8080,
        listen: String::new(),
        protocol: InboundProtocol::Socks,
        settings: ProtocolSettings::Socks(SocksSettings { auth: SocksAuth::NoAuth {}, udp: true, ip: None, user_level: 0 }),
        stream_settings: plain_stream(TransportNetwork::Tcp, StreamSecurity::NoSecurity),
        sniffing: SniffingConfig::default(),
    };
    config.inbounds.push(inbound);
    assert!(svc.validate_config(&config).is_err());
}

#[test]
fn validate_reports_zero_port() {
    let svc = XrayService::new(GlobalSettings::default_for_home("/root"));
    let config = svc.generate_config(&[vless_inbound(0, "0.0.0.0")], &RoutingConfig::default());
    match svc.validate_config(&config) {
        Err(ServiceError::Command(m)) => assert_eq!(m, "port cannot be 0"),
        other => panic!("unexpected: {:?}", other),
    }
    let config = svc.generate_config(&[vless_inbound(443, "")], &RoutingConfig::default());
    match svc.validate_config(&config) {
        Err(ServiceError::Command(m)) => assert_eq!(m, "listen address is empty"),
        other => panic!("unexpected: {:?}", other),
    }
}

#[test]
fn generated_config_has_direct_and_block_outbounds() {
    let svc = XrayService::new(GlobalSettings::default_for_home("/root"));
    let config = svc.generate_config(&[], &RoutingConfig::default());
    assert_eq!(config.log.loglevel, "warning");
    assert_eq!(config.outbounds.len(), 2);
    assert_eq!(config.outbounds[0].protocol, "freedom");
    assert_eq!(config.outbounds[0].tag.as_deref(), Some("direct"));
    assert_eq!(config.outbounds[1].protocol, "blackhole");
    assert_eq!(config.outbounds[1].tag.as_deref(), Some("block"));
}

#[test]
fn reality_keys_are_read_from_x25519_output() {
    let out = "Private key: abc123\nPublic key:  xyz789 \n";
    let (private, public) = XrayService::parse_reality_keys(out).unwrap();
    assert_eq!(private, "abc123");
    assert_eq!(public, "xyz789");
    match XrayService::parse_reality_keys("garbage") {
        Err(ServiceError::Command(m)) => assert_eq!(m, "Failed to parse x25519 output:\ngarbage"),
        other => panic!("unexpected: {:?}", other),
    }
}

#[test]
fn version_is_the_first_line() {
    assert_eq!(XrayService::parse_version("Xray 1.8.4 (Xray, Penetrates Everything.)\nA unified platform").as_deref(), Some("Xray 1.8.4 (Xray, Penetrates Everything.)"));
    assert_eq!(XrayService::parse_version(""), None);
}

#[test]
fn test_parse_cert_list() {
    let output = "Main_Domain  KeyLength  SAN_Domains  Created  RenewDate\n\
                  example.com  2048  *.example.com  /root/.acme.sh/example.com  2025-01-01  2025-04-01";
    let certs = AcmeService::parse_cert_list(output, "/root").unwrap();
    assert!(!certs.is_empty());
    assert_eq!(certs[0].domain, "example.com");
}

#[test]
fn cert_list_rows_give_paths_and_dates() {
    let output = "noise\nMain_Domain  KeyLength\n*.example.org  ec-256  - - 2024-05-06 2024-08-04\nsecond.net 2048\n\nafter.blank 2048";
    let certs = AcmeService::parse_cert_list(output, "/home/me").unwrap();
    assert_eq!(certs.len(), 2);
    assert_eq!(certs[0].domain, "example.org");
    assert_eq!(certs[0].cert_path, "/home/me/.acme.sh/example.org/fullchain.cer");
    assert_eq!(certs[0].key_path, "/home/me/.acme.sh/example.org/example.org.key");
    assert_eq!(certs[0].issued_at, CalendarDate { year: 2024, month: 5, day: 6 });
    assert_eq!(certs[0].expires_at, CalendarDate { year: 2024, month: 8, day: 4 });
    assert_eq!(certs[1].domain, "second.net");
    assert_eq!(certs[1].issued_at, CalendarDate { year: 2020, month: 1, day: 1 });
}

#[test]
fn issue_arguments_per_method() {
    assert_eq!(AcmeService::issue_args("a.com", "webroot", None).unwrap(), vec!["--issue", "-d", "a.com", "--webroot", "/var/www/html"]);
    assert_eq!(AcmeService::issue_args("a.com", "webroot", Some("/srv")).unwrap(), vec!["--issue", "-d", "a.com", "--webroot", "/srv"]);
    assert_eq!(AcmeService::issue_args("a.com", "alpn", None).unwrap(), vec!["--issue", "-d", "a.com", "--alpn"]);
    assert_eq!(AcmeService::issue_args("a.com", "dns_cf", None).unwrap(), vec!["--issue", "-d", "a.com", "--dns", "dns_cf"]);
    assert!(AcmeService::issue_args("a.com", "carrier-pigeon", None).is_err());
}

#[test]
fn cloudflare_credentials() {
    let token = AcmeService::cf_env(Some("cfut_abc"), Some("me@x.org"));
    assert_eq!(token, vec![("CF_Token".to_string(), "cfut_abc".to_string())]);
    let key = AcmeService::cf_env(Some("shortkey"), Some("me@x.org"));
    assert_eq!(key, vec![("CF_Key".to_string(), "shortkey".to_string()), ("CF_Email".to_string(), "me@x.org".to_string())]);
    assert!(AcmeService::cf_env(None, Some("me@x.org")).is_empty());
}

#[test]
fn acme_outcomes_and_installer() {
    assert_eq!(AcmeService::acme_outcome("out", "err", true).unwrap(), "outerr");
    match AcmeService::acme_outcome("out", "err", false) {
        Err(ServiceError::Acme(m)) => assert_eq!(m, "acme.sh failed:\nouterr"),
        other => panic!("unexpected: {:?}", other),
    }
    assert_eq!(AcmeService::installer_command(true, true).unwrap(), "curl https://get.acme.sh | sh");
    assert_eq!(AcmeService::installer_command(false, true).unwrap(), "wget -O - https://get.acme.sh | sh");
    assert!(AcmeService::installer_command(false, false).is_err());
    assert!(AcmeService::issue_succeeded("... Cert success."));
    assert!(!AcmeService::issue_succeeded("error"));
}

#[test]
fn issued_cert_lasts_ninety_days() {
    let c = AcmeService::issued_cert("a.com", CalendarDate { year: 2024, month: 12, day: 15 }, "/root").unwrap();
    assert_eq!(c.expires_at, CalendarDate { year: 2025, month: 3, day: 15 });
    assert_eq!(c.cert_path, "/etc/xray/certs/a.com/fullchain.pem");
    assert_eq!(c.key_path, "/etc/xray/certs/a.com/privkey.pem");
    assert_eq!(c.renew_command.as_deref(), Some("/root/.acme.sh/acme.sh --renew -d a.com --reloadcmd 'systemctl reload xray'"));
}

#[test]
fn file_names_and_toggling() {
    let inb = vless_inbound(8443, "0.0.0.0");
    assert_eq!(ConfigManager::make_filename(&inb), "vless+tcp+none+8443.json");
    assert_eq!(ConfigManager::classify_filename("a.json"), Some(true));
    assert_eq!(ConfigManager::classify_filename("a.json.disabled"), Some(false));
    assert_eq!(ConfigManager::classify_filename("notes.txt"), None);
    let off = ConfigManager::toggled_filename("a.json");
    assert_eq!(off, "a.json.disabled");
    assert_eq!(ConfigManager::toggled_filename(&off), "a.json");
    let (name, other) = ConfigManager::save_file_names(&inb, false);
    assert_eq!(name, "vless+tcp+none+8443.json.disabled");
    assert_eq!(other, "vless+tcp+none+8443.json");
}

#[test]
fn entries_sort_by_modification_time_stably() {
    let entry = |name: &str, modified: u128| ConfigEntry { config: vless_inbound(1, "x"), filename: name.into(), enabled: true, modified };
    let sorted = ConfigManager::sort_entries(vec![entry("c", 30), entry("a", 10), entry("b", 30), entry("d", 5)]);
    let names: Vec<&str> = sorted.iter().map(|e| e.filename.as_str()).collect();
    assert_eq!(names, vec!["d", "a", "c", "b"]);
}

#[test]
fn journal_arguments_and_filtering() {
    assert_eq!(JournalService::journal_args(500, Some("warn")), vec!["-u", "xray", "-n", "500", "--no-pager", "-o", "short-iso", "-p", "warn..emerg"]);
    assert_eq!(JournalService::journal_args(20, Some("all")).len(), 7);
    let kept = JournalService::filter_log_lines("INFO start\nwarn: slow\nERROR boom", Some("WARN"));
    assert_eq!(kept, vec!["warn: slow"]);
    assert_eq!(JournalService::filter_log_lines("a\nb", None).len(), 2);
}

#[test]
fn systemd_outputs() {
    let svc = SystemdService::new("/usr/local/bin/xray".into(), "/etc/xray/config.json".into());
    assert!(SystemdService::is_active_output(" active\n"));
    assert!(!SystemdService::is_active_output("inactive"));
    assert_eq!(SystemdService::pid_from_output(" 1234\n").unwrap(), 1234);
    assert!(SystemdService::pid_from_output("abc").is_err());
    assert_eq!(SystemdService::version_from_output(""), "unknown");
    assert!(svc.unit_file_content().contains("ExecStart=/usr/local/bin/xray run -config /etc/xray/config.json\n"));
}

#[test]
fn storage_lives_in_the_state_directory() {
    let settings = GlobalSettings::default_for_home("/home/me");
    assert_eq!(settings.state_dir, "/home/me/.config/xray-tui");
    let storage = Storage::new(&settings);
    assert_eq!(storage.state_path(), "/home/me/.config/xray-tui/state.json");
}

#[test]
fn default_hash_matches_hashing_the_str() {
    for text in ["", "d290f1ee-6c54-4b01-90e6-d701748f0851", "abc"] {
        let mut h = std::collections::hash_map::DefaultHasher::new();
        text.hash(&mut h);
        assert_eq!(xray_tui::codec::default_hash(text), h.finish());
    }
    assert_ne!(xray_tui::codec::default_hash("a"), xray_tui::codec::default_hash("b"));
}

#[test]
fn generated_config_copies_inbounds_and_routing() {
    let svc = XrayService::new(GlobalSettings::default_for_home("/root"));
    let mut inb = vless_inbound(443, "0.0.0.0");
    inb.tag = Some("test".to_string());
    let mut routing = RoutingConfig::default();
    routing.domain_strategy = "IPIfNonMatch".to_string();
    let c = svc.generate_config(&[inb.clone()], &routing);
    assert_eq!(c.inbounds.len(), 1);
    assert_eq!(c.inbounds[0].tag.as_deref(), Some("test"));
    assert_eq!(c.inbounds[0].port, 443);
    assert_eq!(c.routing.domain_strategy, "IPIfNonMatch");
    let d = XrayConfig::from_inbounds(&[inb], &routing);
    assert_eq!(d.inbounds[0].listen, c.inbounds[0].listen);
}

#[test]
fn install_runs_through_sudo_unless_root() {
    let (p, a) = XrayService::install_command(Some("root"));
    assert_eq!(p, "bash");
    assert_eq!(a.len(), 2);
    assert_eq!(a[0], "-c");
    let (p, a) = XrayService::install_command(Some("alice"));
    assert_eq!(p, "sudo");
    assert_eq!(&a[..2], &["bash".to_string(), "-c".to_string()]);
    let (p, _) = XrayService::install_command(None);
    assert_eq!(p, "sudo");
}

#[test]
fn ticks_refresh_every_tick_and_expire_messages() {
    assert_eq!(xray_tui::ui::app::tick(0, None), (1, true, false));
    assert_eq!(xray_tui::ui::app::tick(28, None), (29, true, false));
    assert_eq!(xray_tui::ui::app::tick(29, Some(3)), (30, true, false));
    assert_eq!(xray_tui::ui::app::tick(0, Some(4)), (1, true, true));
}
