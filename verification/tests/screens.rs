use xray_tui::model::routing::RoutingRule;
use xray_tui::model::settings::GlobalSettings;
use xray_tui::model::ssl::{CalendarDate, CertInfo};
use xray_tui::ui::app::{Action, ConfirmedAction, Screen};
use xray_tui::ui::keys::{KeyInput, KeyPress};
use xray_tui::ui::screens::log_viewer::{self, LogViewerState};
use xray_tui::ui::screens::routing_editor::{self, RoutingEditMode};
use xray_tui::ui::screens::settings_page::{self, SettingsEditState};
use xray_tui::ui::screens::ssl_manager::{self, SslEditState};
use xray_tui::ui::screens::{dashboard, others};

fn key(code: KeyInput) -> KeyPress {
    KeyPress::bare(code)
}

#[test]
fn dashboard_commands() {
    let mut c = 0usize;
    assert!(matches!(dashboard::handle_key(key(KeyInput::Enter), &mut c), Some(Action::InstallXray)));
    for _ in 0..10 {
        dashboard::handle_key(key(KeyInput::Down), &mut c);
    }
    assert_eq!(c, 5);
    assert!(matches!(dashboard::handle_key(key(KeyInput::Enter), &mut c), Some(Action::UninstallXray)));
    dashboard::handle_key(key(KeyInput::Char('k')), &mut c);
    assert!(matches!(dashboard::handle_key(key(KeyInput::Enter), &mut c), Some(Action::StopXray)));
    let mut t = 3usize;
    assert!(matches!(others::handle_key(key(KeyInput::Enter), &mut t), Some(Action::UpdateGeoFiles)));
}

#[test]
fn routing_editor_commands() {
    let mut rules = RoutingRule::all_presets();
    let (mut cursor, mut sel, mut edit) = (2usize, 1usize, None);
    let r = routing_editor::handle_key(key(KeyInput::Enter), &mut cursor, &mut rules, &mut sel, &mut edit);
    assert!(matches!(r, Some(Action::SaveRouting)));
    assert_eq!(rules.len(), 3);
    assert_eq!(rules[1].ip.as_ref().unwrap()[0], "geoip:cn");
    cursor = 3;
    routing_editor::handle_key(key(KeyInput::Enter), &mut cursor, &mut rules, &mut sel, &mut edit);
    assert_eq!(sel, 0);
    assert_eq!(rules[0].ip.as_ref().unwrap()[0], "geoip:cn");
    cursor = 4;
    routing_editor::handle_key(key(KeyInput::Enter), &mut cursor, &mut rules, &mut sel, &mut edit);
    assert_eq!(sel, 1);
    assert_eq!(rules[1].ip.as_ref().unwrap()[0], "geoip:cn");
    cursor = 5;
    routing_editor::handle_key(key(KeyInput::Enter), &mut cursor, &mut rules, &mut sel, &mut edit);
    assert_eq!(rules[1].outbound_tag, "block");
    routing_editor::handle_key(key(KeyInput::Enter), &mut cursor, &mut rules, &mut sel, &mut edit);
    assert_eq!(rules[1].outbound_tag, "direct");
    cursor = 0;
    routing_editor::handle_key(key(KeyInput::Enter), &mut cursor, &mut rules, &mut sel, &mut edit);
    assert_eq!(edit, Some(RoutingEditMode::New));
    routing_editor::handle_key(key(KeyInput::Esc), &mut cursor, &mut rules, &mut sel, &mut edit);
    assert_eq!(edit, None);
}

#[test]
fn loading_presets_twice_adds_nothing_more() {
    let mut rules: Vec<RoutingRule> = Vec::new();
    routing_editor::load_presets(&mut rules);
    assert_eq!(rules.len(), 4);
    assert_eq!(rules[2].ip, Some(vec!["geoip:cn".to_string()]));
    assert_eq!(rules[3].ip, Some(vec!["geoip:private".to_string()]));
    assert_eq!(rules[3].outbound_tag, "direct");
    routing_editor::load_presets(&mut rules);
    assert_eq!(rules.len(), 4);
    let mut empty: Vec<RoutingRule> = Vec::new();
    let (mut cursor, mut sel, mut edit) = (6usize, 0usize, None);
    let r = routing_editor::handle_key(key(KeyInput::Enter), &mut cursor, &mut empty, &mut sel, &mut edit);
    assert!(matches!(r, Some(Action::SaveRouting)));
    let presets = RoutingRule::all_presets();
    assert_eq!(empty.len(), 4);
    for (a, b) in empty.iter().zip(presets.iter()) {
        assert_eq!((&a.domain, &a.ip, &a.outbound_tag), (&b.domain, &b.ip, &b.outbound_tag));
    }
    assert_eq!((sel, edit), (0, None));
}

#[test]
fn log_viewer_keys() {
    let mut st = LogViewerState::default();
    st.lines = (0..5).map(|i| format!("line {}", i)).collect();
    let mut c = 0usize;
    log_viewer::handle_key(key(KeyInput::Up), &mut c, &mut st);
    assert_eq!(st.scroll_offset, 1);
    assert!(!st.auto_scroll);
    log_viewer::handle_key(key(KeyInput::PageUp), &mut c, &mut st);
    assert_eq!(st.scroll_offset, 4);
    log_viewer::handle_key(key(KeyInput::PageDown), &mut c, &mut st);
    assert_eq!(st.scroll_offset, 0);
    match log_viewer::handle_key(key(KeyInput::Enter), &mut c, &mut st) {
        Some(Action::FetchLogs(level)) => assert_eq!(level, "info"),
        _ => panic!("expected a refresh"),
    }
    c = 2;
    for expected in ["warn", "err", "debug", "all", "info"] {
        log_viewer::handle_key(key(KeyInput::Enter), &mut c, &mut st);
        assert_eq!(st.level_filter, expected);
    }
    c = 1;
    log_viewer::handle_key(key(KeyInput::Enter), &mut c, &mut st);
    assert!(st.auto_scroll);
}

#[test]
fn settings_edit_and_cycle() {
    let mut s = GlobalSettings::default_for_home("/root");
    let mut c = 3usize;
    let mut edit: Option<SettingsEditState> = None;
    settings_page::handle_key(key(KeyInput::Enter), &mut c, &mut s, &mut edit);
    assert_eq!(edit.as_ref().unwrap().field, 3);
    for ch in "1.2.3.4".chars() {
        settings_page::handle_key(key(KeyInput::Char(ch)), &mut c, &mut s, &mut edit);
    }
    match settings_page::handle_key(key(KeyInput::Enter), &mut c, &mut s, &mut edit) {
        Some(Action::UpdateSettings(saved)) => assert_eq!(saved.server_public_ip.as_deref(), Some("1.2.3.4")),
        _ => panic!("expected a save"),
    }
    assert!(edit.is_none());
    assert_eq!(s.server_public_ip.as_deref(), Some("1.2.3.4"));
    c = 2;
    for expected in ["info", "debug", "error", "warning"] {
        settings_page::handle_key(key(KeyInput::Enter), &mut c, &mut s, &mut edit);
        assert_eq!(s.log_level, expected);
    }
    c = 5;
    settings_page::handle_key(key(KeyInput::Enter), &mut c, &mut s, &mut edit);
    assert_eq!(edit.as_ref().unwrap().cf_sub, Some(0));
    settings_page::handle_key(key(KeyInput::Down), &mut c, &mut s, &mut edit);
    assert_eq!(edit.as_ref().unwrap().cf_sub, Some(1));
    settings_page::handle_key(key(KeyInput::Esc), &mut c, &mut s, &mut edit);
    assert_eq!(edit.as_ref().unwrap().cf_sub, None);
}

fn cert(domain: &str) -> CertInfo {
    CertInfo {
        domain: domain.into(),
        issued_at: CalendarDate { year: 2025, month: 1, day: 1 },
        expires_at: CalendarDate { year: 2025, month: 4, day: 1 },
        cert_path: "/c".into(),
        key_path: "/k".into(),
        issuer: "Let's Encrypt".into(),
        auto_renew: false,
        renew_command: None,
    }
}

#[test]
fn ssl_screen_keys() {
    let mut certs = vec![cert("a.com"), cert("b.com")];
    let settings = GlobalSettings::default_for_home("/root");
    let (mut c, mut sel) = (0usize, 0usize);
    let mut edit: Option<SslEditState> = None;
    match ssl_manager::handle_key(key(KeyInput::Enter), &mut c, &mut certs, &mut sel, &mut edit, &settings, false) {
        Some(Action::ShowMessage(m)) => assert!(m.starts_with("acme.sh not found")),
        _ => panic!("expected a message"),
    }
    ssl_manager::handle_key(key(KeyInput::Enter), &mut c, &mut certs, &mut sel, &mut edit, &settings, true);
    assert_eq!(edit.as_ref().unwrap().webroot, "/var/www/html");
    for ch in "x.org".chars() {
        ssl_manager::handle_key(key(KeyInput::Char(ch)), &mut c, &mut certs, &mut sel, &mut edit, &settings, true);
    }
    ssl_manager::handle_key(key(KeyInput::Tab), &mut c, &mut certs, &mut sel, &mut edit, &settings, true);
    ssl_manager::handle_key(key(KeyInput::Up), &mut c, &mut certs, &mut sel, &mut edit, &settings, true);
    assert_eq!(edit.as_ref().unwrap().method_idx, 2);
    match ssl_manager::handle_key(key(KeyInput::Enter), &mut c, &mut certs, &mut sel, &mut edit, &settings, true) {
        Some(Action::IssueCertWithMethod { domain, method, webroot, .. }) => {
            assert_eq!(domain, "x.org");
            assert_eq!(method, "dns");
            assert!(webroot.is_none());
        }
        _ => panic!("expected an issue request"),
    }
    assert!(edit.is_none());
    ssl_manager::handle_key(key(KeyInput::Right), &mut c, &mut certs, &mut sel, &mut edit, &settings, true);
    assert_eq!(sel, 1);
    c = 3;
    ssl_manager::handle_key(key(KeyInput::Enter), &mut c, &mut certs, &mut sel, &mut edit, &settings, true);
    assert!(certs[1].auto_renew);
    c = 2;
    match ssl_manager::handle_key(key(KeyInput::Enter), &mut c, &mut certs, &mut sel, &mut edit, &settings, true) {
        Some(Action::PushScreen(Screen::ConfirmDialog { message, on_confirm })) => {
            assert_eq!(message, "Delete b.com cert?");
            assert_eq!(on_confirm, ConfirmedAction::DeleteCert(1));
        }
        _ => panic!("expected a confirmation"),
    }
}
