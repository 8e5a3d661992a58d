use base64::engine::general_purpose::STANDARD as BASE64;
use base64::Engine;
use xray_tui::model::common::SniffingConfig;
use xray_tui::model::config::{InboundConfig, InboundProtocol};
use xray_tui::model::protocol::{ProtocolSettings, VMessClient, VMessSettings};
use xray_tui::model::settings::{AppState, GlobalSettings};
use xray_tui::model::ssl::{CalendarDate, CertInfo};
use xray_tui::model::stream::{StreamSecurity, StreamSettings, TlsCertificate, TlsSettings, TransportNetwork};
use xray_tui::services::config_manager::ConfigEntry;
use xray_tui::ui::app::{Action, AppModel, ConfirmedAction, Effect, InputMode, PickerAction, Screen, UserData};
use xray_tui::ui::keys::{KeyInput, KeyPress};

fn vmess_inbound(port: u16, sni: Option<&str>) -> InboundConfig {
    InboundConfig {
        tag: Some(format!("in-{}", port)),
        port,
        listen: "0.0.0.0".into(),
        protocol: InboundProtocol::VMess,
        settings: ProtocolSettings::VMess(VMessSettings {
            clients: vec![VMessClient { id: "id-0".into(), security: "auto".into(), email: None, level: None }],
        }),
        stream_settings: StreamSettings {
            network: TransportNetwork::Tcp,
            security: if sni.is_some() { StreamSecurity::Tls } else { StreamSecurity::NoSecurity },
            tls_settings: sni.map(|s| TlsSettings {
                server_name: Some(s.into()),
                certificates: vec![TlsCertificate { certificate_file: "/old".into(), key_file: "/old.key".into() }],
                alpn: vec!["h2".into()],
                min_version: None,
            }),
            reality_settings: None,
            ws_settings: None,
            grpc_settings: None,
            httpupgrade_settings: None,
            tcp_settings: None,
            kcp_settings: None,
            quic_settings: None,
        },
        sniffing: SniffingConfig::default(),
    }
}

fn model() -> AppModel {
    let entries = vec![
        ConfigEntry { config: vmess_inbound(443, Some("a.com")), filename: "vmess+tcp+tls+443.json".into(), enabled: true, modified: 1 },
        ConfigEntry { config: vmess_inbound(8080, None), filename: "vmess+tcp+none+8080.json".into(), enabled: false, modified: 2 },
    ];
    let state = AppState { settings: GlobalSettings::default_for_home("/root"), stored_inbounds: vec![], stored_certs: vec![] };
    AppModel::new(entries, state)
}

fn key(code: KeyInput) -> KeyPress {
    KeyPress::bare(code)
}

fn clients(m: &AppModel, i: usize) -> Vec<String> {
    match &m.inbounds[i].config.settings {
        ProtocolSettings::VMess(s) => s.clients.iter().map(|c| c.id.clone()).collect(),
        _ => vec![],
    }
}

#[test]
fn starts_on_the_dashboard_with_presets() {
    let m = model();
    assert!(matches!(m.current_screen, Screen::Dashboard));
    assert_eq!(m.mode, InputMode::Normal);
    assert_eq!(m.routing_rules.len(), 4);
    assert!(!m.should_quit);
}

#[test]
fn push_then_pop_returns() {
    let mut m = model();
    m.push_screen(Screen::Others);
    assert!(matches!(m.current_screen, Screen::Others));
    m.pop_screen();
    assert!(matches!(m.current_screen, Screen::Dashboard));
    m.pop_screen();
    assert!(matches!(m.current_screen, Screen::Dashboard));
    m.mode = InputMode::Editing;
    m.push_screen(Screen::Others);
    m.pop_screen();
    assert!(matches!(m.current_screen, Screen::Others));
    assert_eq!(m.mode, InputMode::Normal);
}

#[test]
fn tabs_cycle_both_ways() {
    let mut m = model();
    m.switch_tab(false);
    assert!(matches!(m.current_screen, Screen::InboundList));
    m.switch_tab(true);
    assert!(matches!(m.current_screen, Screen::Dashboard));
    m.switch_tab(true);
    assert!(matches!(m.current_screen, Screen::Others));
    m.push_screen(Screen::ShareExport { content: "x".into() });
    m.switch_tab(false);
    assert!(matches!(m.current_screen, Screen::ShareExport { .. }));
}

#[test]
fn q_quits_and_tab_switches() {
    let mut m = model();
    assert!(m.handle_key(key(KeyInput::Tab), true).is_none());
    assert!(matches!(m.current_screen, Screen::InboundList));
    m.handle_key(key(KeyInput::Char('q')), true);
    assert!(m.should_quit);
}

#[test]
fn confirm_dialog_deletes_certificate_record() {
    let mut m = model();
    m.certificates.push(CertInfo {
        domain: "a.com".into(),
        issued_at: CalendarDate { year: 2025, month: 1, day: 1 },
        expires_at: CalendarDate { year: 2025, month: 4, day: 1 },
        cert_path: "/c".into(),
        key_path: "/k".into(),
        issuer: "Let's Encrypt".into(),
        auto_renew: false,
        renew_command: None,
    });
    m.push_screen(Screen::ConfirmDialog { message: "Delete?".into(), on_confirm: ConfirmedAction::DeleteCert(0) });
    match m.handle_key(key(KeyInput::Enter), true) {
        Some(Action::ShowMessage(s)) => assert_eq!(s, "Deleted"),
        _ => panic!("expected a message"),
    }
    assert!(m.certificates.is_empty());
    assert!(matches!(m.current_screen, Screen::Dashboard));
}

#[test]
fn picker_opens_the_edit_wizard() {
    let mut m = model();
    m.push_screen(Screen::InboundList);
    m.push_screen(Screen::ConfigPicker { selected: 0, action: PickerAction::EditConfig });
    m.handle_key(key(KeyInput::Down), true);
    match m.handle_key(key(KeyInput::Enter), true) {
        Some(Action::PushScreen(Screen::InboundWizard(w))) => {
            assert_eq!(w.edit_index, Some(1));
            assert_eq!(w.builder.port, 8080);
        }
        _ => panic!("expected the wizard"),
    }
    assert!(matches!(m.current_screen, Screen::InboundList));
}

#[test]
fn picker_copy_link_and_delete() {
    let mut m = model();
    m.push_screen(Screen::ConfigPicker { selected: 0, action: PickerAction::CopyLink });
    match m.handle_key(key(KeyInput::Enter), true) {
        Some(Action::PushScreen(Screen::ShareExport { content })) => assert!(content.starts_with("vmess://")),
        _ => panic!("expected a link"),
    }
    m.push_screen(Screen::ConfigPicker { selected: 1, action: PickerAction::DeleteConfig });
    match m.handle_key(key(KeyInput::Enter), true) {
        Some(Action::PushScreen(Screen::ConfirmDialog { message, on_confirm })) => {
            assert_eq!(message, "Delete 'vmess+tcp+none+8080.json'?");
            assert_eq!(on_confirm, ConfirmedAction::DeleteInbound(1));
        }
        _ => panic!("expected a confirmation"),
    }
}

#[test]
fn port_conflicts_are_refused() {
    let mut m = model();
    assert!(m.detect_port_conflict(&vmess_inbound(443, None), None));
    assert!(!m.detect_port_conflict(&vmess_inbound(443, None), Some(0)));
    assert!(matches!(m.handle_action(Action::SaveInbound(vmess_inbound(443, None))), Effect::Nothing));
    assert_eq!(m.take_message().as_deref(), Some("Port conflict detected"));
    assert!(matches!(m.handle_action(Action::SaveInbound(vmess_inbound(9000, None))), Effect::SaveInbound(_)));
    match m.handle_action(Action::UpdateInbound(0, vmess_inbound(443, None))) {
        Effect::ReplaceInbound { filename, enabled, .. } => {
            assert_eq!(filename, "vmess+tcp+tls+443.json");
            assert!(enabled);
        }
        _ => panic!("expected a replacement"),
    }
}

#[test]
fn users_are_added_and_removed() {
    let mut m = model();
    let data = UserData { uuid: Some("new-id".into()), password: None, flow: None, email: Some("e@x".into()), method: None };
    assert!(matches!(m.handle_action(Action::AddUser(0, data)), Effect::SaveEntry { index: 0, write: true }));
    assert_eq!(clients(&m, 0), vec!["id-0", "new-id"]);
    assert_eq!(m.take_message().as_deref(), Some("User added"));
    m.handle_action(Action::DeleteUser(0, 1));
    assert_eq!(clients(&m, 0), vec!["id-0"]);
    let generated = UserData { uuid: None, password: None, flow: None, email: None, method: None };
    m.handle_action(Action::AddUser(0, generated));
    assert_eq!(clients(&m, 0)[1].len(), 36);
    assert!(matches!(m.handle_action(Action::AddUser(9, UserData { uuid: None, password: None, flow: None, email: None, method: None })), Effect::Nothing));
}

#[test]
fn saving_the_user_form_edits_in_place() {
    let mut m = model();
    let eff = m.handle_action(Action::SaveUser {
        inbound_idx: 1,
        user_idx: 0,
        proto: "VMess".into(),
        labels: vec![],
        values: vec!["edited".into(), "aes-128-gcm".into(), "".into()],
        is_new: false,
    });
    assert!(matches!(eff, Effect::SaveEntry { index: 1, write: false }));
    match &m.inbounds[1].config.settings {
        ProtocolSettings::VMess(s) => {
            assert_eq!(s.clients[0].id, "edited");
            assert_eq!(s.clients[0].security, "aes-128-gcm");
            assert!(s.clients[0].email.is_none());
        }
        _ => panic!("still VMess"),
    }
    assert!(matches!(m.current_screen, Screen::UserManager { inbound_idx: 1, selected: 0 }));
    assert_eq!(m.take_message().as_deref(), Some("User updated"));
}

#[test]
fn export_shows_the_subscription() {
    let mut m = model();
    m.handle_action(Action::ExportSubscription);
    match &m.current_screen {
        Screen::ShareExport { content } => {
            let text = String::from_utf8(BASE64.decode(content).unwrap()).unwrap();
            assert_eq!(text.lines().count(), 2);
            assert!(text.lines().all(|l| l.starts_with("vmess://")));
        }
        _ => panic!("expected the share screen"),
    }
}

#[test]
fn issued_certificate_replaces_matching_tls() {
    let mut m = model();
    let changed = m.cert_issued(CertInfo {
        domain: "a.com".into(),
        issued_at: CalendarDate { year: 2025, month: 1, day: 1 },
        expires_at: CalendarDate { year: 2025, month: 4, day: 1 },
        cert_path: "/etc/xray/certs/a.com/fullchain.pem".into(),
        key_path: "/etc/xray/certs/a.com/privkey.pem".into(),
        issuer: "Let's Encrypt".into(),
        auto_renew: true,
        renew_command: None,
    });
    assert_eq!(changed, vec![0]);
    let tls = m.inbounds[0].config.stream_settings.tls_settings.as_ref().unwrap();
    assert_eq!(tls.certificates.len(), 1);
    assert_eq!(tls.certificates[0].certificate_file, "/etc/xray/certs/a.com/fullchain.pem");
    assert_eq!(tls.alpn, vec!["h2".to_string()]);
    assert_eq!(m.certificates.len(), 1);
}

#[test]
fn outside_actions_are_handed_back() {
    let mut m = model();
    assert!(matches!(m.handle_action(Action::RestartXray), Effect::Outside(Action::RestartXray)));
    assert!(matches!(m.handle_action(Action::ToggleInbound(1)), Effect::ToggleFile(f) if f == "vmess+tcp+none+8080.json"));
    m.handle_action(Action::Quit);
    assert!(m.should_quit);
}
