use xray_tui::model::config::InboundProtocol;
use xray_tui::model::protocol::ProtocolSettings;
use xray_tui::model::stream::{StreamSecurity, TransportNetwork};
use xray_tui::ui::app::{Action, InputMode};
use xray_tui::ui::builder::InboundConfigBuilder;
use xray_tui::ui::keys::{KeyInput, KeyPress};
use xray_tui::ui::screens::wizard_keys::handle_key;
use xray_tui::ui::templates::InboundTemplate;
use xray_tui::ui::wizard::{apply_fields, parse_protocol, validate, InboundWizardState, WizardFieldType, WizardStep};
use xray_tui::codec::uuid_parses;

fn press(w: &mut InboundWizardState, mode: &mut InputMode, code: KeyInput) -> Option<Action> {
    handle_key(KeyPress::bare(code), mode, w)
}

fn type_text(w: &mut InboundWizardState, mode: &mut InputMode, text: &str) {
    for c in text.chars() {
        press(w, mode, KeyInput::Char(c));
    }
}

#[test]
fn new_wizard_starts_on_templates() {
    let w = InboundWizardState::new();
    assert_eq!(w.current_step, WizardStep::Template);
    assert_eq!(w.fields.len(), InboundTemplate::offered().len());
    assert_eq!(w.builder.port, 443);
    assert_eq!(w.builder.listen, "0.0.0.0");
}

#[test]
fn template_navigation_stops_at_the_ends() {
    let mut w = InboundWizardState::new();
    let mut mode = InputMode::Normal;
    press(&mut w, &mut mode, KeyInput::Up);
    assert_eq!(w.selected_template, 0);
    press(&mut w, &mut mode, KeyInput::Char('j'));
    press(&mut w, &mut mode, KeyInput::Down);
    assert_eq!(w.selected_template, 2);
    for _ in 0..40 {
        press(&mut w, &mut mode, KeyInput::Down);
    }
    assert_eq!(w.selected_template, InboundTemplate::offered().len() - 1);
    assert!(matches!(press(&mut w, &mut mode, KeyInput::Esc), Some(Action::PopScreen)));
}

#[test]
fn choosing_a_template_fills_the_builder_and_moves_on() {
    let mut w = InboundWizardState::new();
    let mut mode = InputMode::Normal;
    press(&mut w, &mut mode, KeyInput::Enter);
    assert_eq!(w.current_step, WizardStep::Basic);
    assert_eq!(w.builder.protocol, InboundProtocol::VLess);
    assert_eq!(w.builder.transport, TransportNetwork::Ws);
    assert_eq!(w.builder.security, StreamSecurity::Tls);
    assert_eq!(w.fields[0].label, "Protocol");
    assert_eq!(w.fields[0].value, "VLESS");
    assert_eq!(w.fields[1].value, "443");
    assert_eq!(w.focused, 0);
}

#[test]
fn tab_and_back_tab_wrap_around() {
    let mut w = InboundWizardState::edit(0, &InboundConfigBuilder::default().build());
    let mut mode = InputMode::Normal;
    let n = w.fields.len();
    press(&mut w, &mut mode, KeyInput::BackTab);
    assert_eq!(w.focused, n - 1);
    press(&mut w, &mut mode, KeyInput::Tab);
    assert_eq!(w.focused, 0);
    press(&mut w, &mut mode, KeyInput::Tab);
    press(&mut w, &mut mode, KeyInput::BackTab);
    assert_eq!(w.focused, 0);
}

#[test]
fn typing_edits_the_focused_text_field() {
    let mut w = InboundWizardState::edit(0, &InboundConfigBuilder::default().build());
    let mut mode = InputMode::Normal;
    press(&mut w, &mut mode, KeyInput::Tab);
    assert_eq!(w.fields[1].field_type, WizardFieldType::TextInput);
    press(&mut w, &mut mode, KeyInput::Backspace);
    press(&mut w, &mut mode, KeyInput::Backspace);
    press(&mut w, &mut mode, KeyInput::Backspace);
    type_text(&mut w, &mut mode, "8443");
    assert_eq!(w.fields[1].value, "8443");
    assert_eq!(mode, InputMode::Editing);
    press(&mut w, &mut mode, KeyInput::Right);
    assert_eq!(w.current_step, WizardStep::Transport);
    assert_eq!(w.builder.port, 8443);
}

#[test]
fn dropdown_opens_and_moves_selection() {
    let mut w = InboundWizardState::edit(0, &InboundConfigBuilder::default().build());
    let mut mode = InputMode::Normal;
    assert_eq!(w.fields[0].field_type, WizardFieldType::Dropdown);
    press(&mut w, &mut mode, KeyInput::Enter);
    assert!(w.fields[0].is_open);
    assert_eq!(mode, InputMode::Selecting);
    let before = w.fields[0].selected_option;
    press(&mut w, &mut mode, KeyInput::Down);
    assert_eq!(w.fields[0].selected_option, before + 1);
    assert_eq!(w.fields[0].value, w.fields[0].options[before + 1]);
    assert!(press(&mut w, &mut mode, KeyInput::Esc).is_none());
    assert!(!w.fields[0].is_open);
    assert_eq!(mode, InputMode::Normal);
}

#[test]
fn moving_on_does_not_check_the_values() {
    let mut w = InboundWizardState::edit(0, &InboundConfigBuilder::default().build());
    let mut mode = InputMode::Normal;
    press(&mut w, &mut mode, KeyInput::Tab);
    for _ in 0..3 {
        press(&mut w, &mut mode, KeyInput::Backspace);
    }
    type_text(&mut w, &mut mode, "0");
    press(&mut w, &mut mode, KeyInput::Right);
    assert_eq!(w.current_step, WizardStep::Transport);
    assert_eq!(w.builder.port, 0);
    w.current_step = WizardStep::Basic;
    assert_eq!(validate(&w).as_deref(), Some("Port must be 1–65535"));
}

#[test]
fn esc_on_basic_leaves_and_elsewhere_goes_back() {
    let mut w = InboundWizardState::edit(3, &InboundConfigBuilder::default().build());
    let mut mode = InputMode::Normal;
    assert!(matches!(press(&mut w, &mut mode, KeyInput::Esc), Some(Action::PopScreen)));
    press(&mut w, &mut mode, KeyInput::Right);
    assert_eq!(w.current_step, WizardStep::Transport);
    assert!(press(&mut w, &mut mode, KeyInput::Esc).is_none());
    assert_eq!(w.current_step, WizardStep::Basic);
}

#[test]
fn confirm_step_asks_to_save_or_update() {
    let mut w = InboundWizardState::edit(7, &InboundConfigBuilder::default().build());
    let mut mode = InputMode::Normal;
    while w.current_step != WizardStep::Confirm {
        let step = w.current_step;
        press(&mut w, &mut mode, KeyInput::Right);
        assert_ne!(w.current_step, step);
    }
    let mut editor_focus = w.clone();
    editor_focus.focused = 99;
    match press(&mut editor_focus, &mut mode, KeyInput::Enter) {
        Some(Action::UpdateInbound(7, c)) => assert_eq!(c.port, 443),
        other => panic!("unexpected: {:?}", other.is_some()),
    }
    let mut fresh = InboundWizardState::new();
    press(&mut fresh, &mut mode, KeyInput::Enter);
    while fresh.current_step != WizardStep::Confirm {
        press(&mut fresh, &mut mode, KeyInput::Right);
    }
    fresh.focused = 99;
    assert!(matches!(press(&mut fresh, &mut mode, KeyInput::Enter), Some(Action::SaveInbound(_))));
}

#[test]
fn ctrl_g_fills_a_uuid_and_j_k_are_typed() {
    let mut w = InboundWizardState::edit(0, &InboundConfigBuilder::default().build());
    let mut mode = InputMode::Normal;
    while w.current_step != WizardStep::Users {
        press(&mut w, &mut mode, KeyInput::Right);
    }
    assert_eq!(w.fields[0].label, "UUID");
    let before = w.fields[0].value.clone();
    let ctrl_g = KeyPress { code: KeyInput::Char('g'), ctrl: true, shift: false, other_modifiers: false };
    handle_key(ctrl_g, &mut mode, &mut w);
    assert_ne!(w.fields[0].value, before);
    assert_eq!(w.fields[0].value.len(), 36);
    w.focused = 1;
    let email = w.fields[1].value.clone();
    press(&mut w, &mut mode, KeyInput::Char('j'));
    press(&mut w, &mut mode, KeyInput::Char('k'));
    assert_eq!(w.focused, 1);
    assert_eq!(w.fields[1].value, format!("{}jk", email));
    press(&mut w, &mut mode, KeyInput::Down);
    assert_eq!(w.focused, 1);
}

#[test]
fn a_bad_uuid_is_flagged_by_validate_only() {
    let mut w = InboundWizardState::edit(0, &InboundConfigBuilder::default().build());
    let mut mode = InputMode::Normal;
    while w.current_step != WizardStep::Users {
        press(&mut w, &mut mode, KeyInput::Right);
    }
    w.builder.uuid = Some("not-a-uuid".into());
    assert_eq!(validate(&w).as_deref(), Some("UUID format is invalid"));
    w.fields[0].value = "not-a-uuid".into();
    press(&mut w, &mut mode, KeyInput::Right);
    assert_eq!(w.current_step, WizardStep::Confirm);
}

#[test]
fn protocol_names_round_trip() {
    for (name, p) in [("VMess", InboundProtocol::VMess), ("VLESS", InboundProtocol::VLess), ("Trojan", InboundProtocol::Trojan),
        ("Shadowsocks", InboundProtocol::Shadowsocks), ("HTTP", InboundProtocol::Http), ("SOCKS", InboundProtocol::Socks)] {
        assert_eq!(parse_protocol(name), p);
        assert_eq!(p.to_string(), name);
    }
    assert_eq!(parse_protocol("nonsense"), InboundProtocol::VMess);
}

#[test]
fn built_inbound_has_one_user() {
    let mut b = InboundConfigBuilder::default();
    b.apply_template(&InboundTemplate::TrojanWsTls);
    let c = b.build();
    assert_eq!(c.user_count(), 1);
    assert!(matches!(c.settings, ProtocolSettings::Trojan(_)));
    let mut s = InboundConfigBuilder::default();
    s.apply_template(&InboundTemplate::SocksLocal);
    assert_eq!(s.build().user_count(), 0);
}

#[test]
fn presets_leave_out_custom_and_the_step_adds_it() {
    let all = InboundTemplate::all();
    assert_eq!(all.len(), 13);
    assert!(all.iter().all(|t| *t != InboundTemplate::Custom));
    assert_eq!(all[0], InboundTemplate::VlessWsTls);
    assert_eq!(all[12], InboundTemplate::HttpLocal);
    let offered = InboundTemplate::offered();
    assert_eq!(offered.len(), 14);
    assert_eq!(offered[13], InboundTemplate::Custom);
    let names: Vec<&str> = offered.iter().map(|t| t.info().0).collect();
    for i in 0..names.len() {
        assert!(!names[i].is_empty());
        for j in (i + 1)..names.len() {
            assert_ne!(names[i], names[j]);
        }
    }
    assert_eq!(InboundTemplate::VMessWsCdn.info().0, "VMess + WS (CDN)");
    assert!(InboundTemplate::SocksLocal.info().1.contains("127.0.0.1:1080"));
}

#[test]
fn templates_fill_fresh_credentials() {
    let mut b = InboundConfigBuilder::default();
    let u = b.uuid.clone().unwrap();
    assert_eq!(u.len(), 36);
    assert!(uuid_parses(&u));
    b.apply_template(&InboundTemplate::VMessWsCdn);
    assert_eq!(b.protocol, InboundProtocol::VMess);
    assert_eq!(b.port, 80);
    assert_eq!(b.tag.as_deref(), Some("vmess-ws-cdn"));
    assert_eq!(b.transport, TransportNetwork::Ws);
    assert_eq!(b.ws_host.as_deref(), Some("your-cdn-domain.com"));
    assert_eq!(b.security, StreamSecurity::NoSecurity);
    assert!(uuid_parses(b.uuid.as_deref().unwrap()));
    let mut h = InboundConfigBuilder::default();
    h.apply_template(&InboundTemplate::HttpLocal);
    assert_eq!((h.port, h.listen.as_str()), (8080, "127.0.0.1"));
    assert_eq!(h.http_user.as_deref(), Some("admin"));
    let p = h.http_pass.clone().unwrap();
    assert_eq!(p.len(), 16);
    assert!(p.chars().all(|c| c.is_ascii_hexdigit()));
}

#[test]
fn new_wizard_builder_is_the_default_and_going_back_keeps_it() {
    let mut w = InboundWizardState::new();
    assert_eq!(w.builder.transport, TransportNetwork::Tcp);
    w.current_step = WizardStep::Transport;
    w.fields = InboundWizardState::build_step_fields(WizardStep::Transport, &w.builder);
    w.prev_step();
    assert_eq!(w.current_step, WizardStep::Basic);
    let labels: Vec<&str> = w.fields.iter().map(|f| f.label.as_str()).collect();
    assert_eq!(labels, vec!["Protocol", "Port", "Listen", "Tag"]);
    assert_eq!(w.builder.transport, TransportNetwork::Tcp);
}

#[test]
fn fresh_basic_fields_read_back_unchanged() {
    let mut w = InboundWizardState::new();
    w.builder.port = 65535;
    w.builder.tag = Some("in-1".to_string());
    w.current_step = WizardStep::Basic;
    w.fields = InboundWizardState::build_step_fields(WizardStep::Basic, &w.builder);
    apply_fields(&mut w);
    assert_eq!(w.builder.port, 65535);
    assert_eq!(w.builder.tag.as_deref(), Some("in-1"));
    assert_eq!(w.builder.protocol, InboundProtocol::VMess);
}

#[test]
fn sniffing_step_uses_the_live_labels() {
    let w = InboundWizardState::new();
    let f = InboundWizardState::build_step_fields(WizardStep::Sniffing, &w.builder);
    let labels: Vec<&str> = f.iter().map(|x| x.label.as_str()).collect();
    assert_eq!(labels, vec!["Enable Sniffing", "Sniff HTTP", "Sniff TLS", "Sniff QUIC", "Route Only"]);
}
