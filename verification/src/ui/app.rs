use vstd::prelude::*;

use crate::model::config::InboundConfig;
use crate::model::routing::RoutingRule;
use crate::model::settings::{AppState, GlobalSettings};
use crate::model::ssl::CertInfo;
use crate::model::stream::TlsCertificate;
use crate::text::str_eq;
use crate::codec::base64_standard;
use crate::services::subscription::{SubscriptionService, all_links, entry_configs};
use crate::text::{join, lit, texts};
use crate::ui::builder::ot;
use crate::ui::screens::user_manager::{link_address, link_address_of};
use crate::ui::users::{add_user, delete_user, save_user, user_added, user_deleted, user_saved};
use crate::ui::keys::{KeyInput, KeyPress, cursor_down, cursor_up, move_down, move_up};
use crate::ui::screens::{dashboard, inbound_list, log_viewer, others, settings_page, ssl_manager, user_manager, wizard_keys};
use crate::ui::screens::dashboard::dashboard_key_done;
use crate::ui::screens::inbound_list::inbound_key_done;
use crate::ui::screens::log_viewer::log_key_done;
use crate::ui::screens::others::tools_key_done;
use crate::ui::screens::settings_page::settings_key_done;
use crate::ui::screens::ssl_manager::{form_key_done, list_key_done, ssl_state_valid};
use crate::ui::screens::user_manager::user_key_done;
use crate::ui::screens::wizard_keys::wizard_key_done;
use crate::services::subscription::share_link;
use crate::text::cat;
use crate::ui::wizard::{WizardField, any_open, closed, editing_wizard};
use crate::services::config_manager::ConfigEntry;
use crate::ui::screens::log_viewer::LogViewerState;
use crate::ui::screens::settings_page::SettingsEditState;
use crate::ui::screens::ssl_manager::SslEditState;
use crate::ui::wizard::InboundWizardState;

verus! {

/// What the config picker does with the inbound that is picked.
#[derive(Debug, Clone, Copy, PartialEq, Eq, Structural)]
pub enum PickerAction {
    EditConfig,
    DeleteConfig,
    ToggleConfig,
    ManageUsers,
    CopyLink,
}

/// What a confirmation dialog does when it is confirmed.
#[derive(Debug, Clone, Copy, PartialEq, Eq, Structural)]
pub enum ConfirmedAction {
    DeleteInbound(usize),
    DeleteUser { inbound_idx: usize, user_idx: usize },
    DeleteCert(usize),
    RestartXray,
    StopXray,
}

/// How keys are read: commands, typing into a field, or picking from an
/// open dropdown.
#[derive(Debug, Clone, Copy, PartialEq, Eq, Structural)]
pub enum InputMode {
    Normal,
    Editing,
    Selecting,
}

/// The credentials of a user to add to an inbound.
#[derive(Debug, Clone)]
pub struct UserData {
    pub uuid: Option<String>,
    pub password: Option<String>,
    pub flow: Option<String>,
    pub email: Option<String>,
    pub method: Option<String>,
}

/// The screens of the interface, with the state each one keeps.
#[derive(Debug, Clone)]
pub enum Screen {
    Dashboard,
    InboundList,
    InboundWizard(InboundWizardState),
    UserManager { inbound_idx: usize, selected: usize },
    SslManagement { selected: usize, editing: Option<SslEditState> },
    LogViewer(LogViewerState),
    Settings(Option<SettingsEditState>),
    ConfirmDialog { message: String, on_confirm: ConfirmedAction },
    ConfigPicker { selected: usize, action: PickerAction },
    ShareExport { content: String },
    Others,
}

/// What a key press asks of the application.
#[derive(Debug, Clone)]
pub enum Action {
    Navigate(Screen),
    PushScreen(Screen),
    PopScreen,
    SaveInbound(InboundConfig),
    UpdateInbound(usize, InboundConfig),
    DeleteInbound(usize),
    AddUser(usize, UserData),
    DeleteUser(usize, usize),
    RestartXray,
    StartXray,
    StopXray,
    InstallXray,
    UninstallXray,
    InstallSystemd,
    ExportSubscription,
    UpdateSettings(GlobalSettings),
    ShowMessage(String),
    IssueCertWithMethod {
        domain: String,
        method: String,
        webroot: Option<String>,
        cf_email: Option<String>,
        cf_key: Option<String>,
    },
    ToggleInbound(usize),
    SaveUser {
        inbound_idx: usize,
        user_idx: usize,
        proto: String,
        labels: Vec<String>,
        values: Vec<String>,
        is_new: bool,
    },
    GenerateRealityKeys,
    RefreshInbounds,
    GenerateDemo,
    EnableBBR,
    DisableBBR,
    CheckBBR,
    UpdateGeoFiles,
    SyncNTP,
    CheckNTP,
    Quit,
    /// The routing rules changed: write them out.
    SaveRouting,
    /// Read the latest log lines at the given level into the log viewer.
    FetchLogs(String),
    /// Renew the certificate of the given domain.
    RenewCert(String),
    /// Put the text on the clipboard.
    CopyToClipboard(String),
    /// Serve the text as a QR code page for a few seconds.
    ServeQr(String),
}

/// The state the interface keeps apart from its services: the screens, the
/// loaded configurations, certificates, routing rules and settings.
pub struct AppModel {
    pub command_cursor: usize,
    pub current_screen: Screen,
    pub screen_history: Vec<Screen>,
    pub mode: InputMode,
    pub inbounds: Vec<ConfigEntry>,
    pub certificates: Vec<CertInfo>,
    pub routing_rules: Vec<RoutingRule>,
    pub settings: GlobalSettings,
    pub should_quit: bool,
    /// The latest status message, until the application shows it.
    pub message: Option<String>,
}

/// The position of a screen among the tabs: dashboard, inbounds,
/// certificates, logs, settings, tools; other screens are not tabs.
pub open spec fn tab_of(s: Screen) -> Option<nat> {
    match s {
        Screen::Dashboard => Some(0),
        Screen::InboundList => Some(1),
        Screen::SslManagement { .. } => Some(2),
        Screen::LogViewer(_) => Some(3),
        Screen::Settings(_) => Some(4),
        Screen::Others => Some(5),
        _ => None,
    }
}

/// `s` is tab `t` as switching to it shows it: with nothing selected or
/// open, the log viewer as it starts.
pub open spec fn fresh_tab(s: Screen, t: nat) -> bool {
    &&& tab_of(s) == Some(t)
    &&& (s matches Screen::SslManagement { selected, editing } ==> selected == 0 && editing is None)
    &&& (s matches Screen::LogViewer(st) ==> st.lines@.len() == 1 && st.auto_scroll && st.scroll_offset == 0
        && st.level_filter@ == "info"@)
    &&& (s matches Screen::Settings(e) ==> e is None)
}

/// The tab after `t` (or before it, when `reverse`), wrapping around.
pub open spec fn next_tab(t: nat, reverse: bool) -> nat {
    if reverse { (t + 5) % 6 } else { (t + 1) % 6 }
}

/// The data of the model (everything but the screens, the input mode and
/// the command cursor) is the same.
pub open spec fn same_data(pre: AppModel, post: AppModel) -> bool {
    &&& post.inbounds@ == pre.inbounds@
    &&& post.certificates@ == pre.certificates@
    &&& post.routing_rules@ == pre.routing_rules@
    &&& post.settings == pre.settings
    &&& post.should_quit == pre.should_quit
    &&& post.message == pre.message
}

/// What `pop_screen` does: outside normal input it only returns to normal
/// input; otherwise it goes back to the previous screen (the dashboard when
/// there is none).
pub open spec fn popped(pre: AppModel, post: AppModel) -> bool {
    &&& same_data(pre, post)
    &&& post.command_cursor == pre.command_cursor
    &&& if pre.mode != InputMode::Normal {
        &&& post.mode == InputMode::Normal
        &&& post.current_screen == pre.current_screen
        &&& post.screen_history@ == pre.screen_history@
    } else if pre.screen_history@.len() > 0 {
        &&& post.mode == pre.mode
        &&& post.current_screen == pre.screen_history@.last()
        &&& post.screen_history@ == pre.screen_history@.drop_last()
    } else {
        &&& post.mode == pre.mode
        &&& post.current_screen == Screen::Dashboard
        &&& post.screen_history@ == pre.screen_history@
    }
}

/// What `push_screen` does: `s` is shown and the screen before it is kept
/// to go back to.
pub open spec fn pushed(pre: AppModel, post: AppModel, s: Screen) -> bool {
    &&& same_data(pre, post)
    &&& post.command_cursor == pre.command_cursor
    &&& post.mode == pre.mode
    &&& post.current_screen == s
    &&& post.screen_history@ == pre.screen_history@.push(pre.current_screen)
}

impl AppModel {
    /// The model at start: the dashboard, normal input, the loaded
    /// configurations, the stored certificates and settings, and the
    /// routing presets.
    pub fn new(inbounds: Vec<ConfigEntry>, state: AppState) -> (r: Self)
        ensures
            r.command_cursor == 0,
            r.current_screen == Screen::Dashboard,
            r.screen_history@.len() == 0,
            r.mode == InputMode::Normal,
            r.inbounds@ == inbounds@,
            r.certificates@ == state.stored_certs@,
            r.routing_rules@.len() == 4,
            r.routing_rules@[0].is_field_rule(Some(seq!["geosite:cn"@]), None, "direct"@),
            r.routing_rules@[1].is_field_rule(Some(seq!["geosite:category-ads-all"@]), None, "block"@),
            r.routing_rules@[2].is_field_rule(None, Some(seq!["geoip:cn"@]), "direct"@),
            r.routing_rules@[3].is_field_rule(None, Some(seq!["geoip:private"@]), "direct"@),
            r.settings == state.settings,
            !r.should_quit,
            r.message is None,
    {
        AppModel {
            command_cursor: 0,
            current_screen: Screen::Dashboard,
            screen_history: Vec::new(),
            mode: InputMode::Normal,
            inbounds,
            certificates: state.stored_certs,
            routing_rules: RoutingRule::all_presets(),
            settings: state.settings,
            should_quit: false,
            message: None,
        }
    }

    /// Sets the status message.
    pub fn show_msg(&mut self, msg: String)
        ensures
            final(self).message == Some(msg),
            *final(self) == (AppModel { message: Some(msg), ..*old(self) }),
    {
        self.message = Some(msg);
    }

    /// Hands over the status message, if there is one, and clears it.
    pub fn take_message(&mut self) -> (r: Option<String>)
        ensures
            r == old(self).message,
            *final(self) == (AppModel { message: None, ..*old(self) }),
    {
        let m = self.message.take();
        m
    }

    /// Goes back a screen (see `popped`).
    pub fn pop_screen(&mut self)
        ensures
            popped(*old(self), *final(self)),
    {
        if self.mode != InputMode::Normal {
            self.mode = InputMode::Normal;
            return;
        }
        match self.screen_history.pop() {
            Some(prev) => {
                self.current_screen = prev;
            },
            None => {
                self.current_screen = Screen::Dashboard;
            },
        }
    }

    /// Shows `screen`, keeping the current one to go back to.
    pub fn push_screen(&mut self, screen: Screen)
        ensures
            pushed(*old(self), *final(self), screen),
    {
        let mut old_screen = screen;
        std::mem::swap(&mut old_screen, &mut self.current_screen);
        self.screen_history.push(old_screen);
    }

    fn tab_screen(t: usize) -> (r: Screen)
        requires
            t < 6,
        ensures
            fresh_tab(r, t as nat),
    {
        if t == 0 {
            Screen::Dashboard
        } else if t == 1 {
            Screen::InboundList
        } else if t == 2 {
            Screen::SslManagement { selected: 0, editing: None }
        } else if t == 3 {
            Screen::LogViewer(LogViewerState::default())
        } else if t == 4 {
            Screen::Settings(None)
        } else {
            Screen::Others
        }
    }

    /// On a tab, moves to the next tab (the previous one when `reverse`),
    /// shown fresh, with no screen to go back to, normal input and the
    /// command cursor at the top; elsewhere does nothing.
    pub fn switch_tab(&mut self, reverse: bool)
        ensures
            switched(*old(self), *final(self), reverse),
    {
        let current: usize = match &self.current_screen {
            Screen::Dashboard => 0,
            Screen::InboundList => 1,
            Screen::SslManagement { .. } => 2,
            Screen::LogViewer(_) => 3,
            Screen::Settings(_) => 4,
            Screen::Others => 5,
            _ => {
                return;
            },
        };
        let next = if reverse { (current + 5) % 6 } else { (current + 1) % 6 };
        self.screen_history.clear();
        self.mode = InputMode::Normal;
        self.command_cursor = 0;
        self.current_screen = Self::tab_screen(next);
    }
}

/// What one tick of the clock decides: the new tick count, that the
/// status of Xray is refreshed (it is refreshed on every tick), and whether
/// the status message, shown for `message_age` seconds, is dropped (after
/// 3 seconds).
pub fn tick(tick_count: u64, message_age: Option<u64>) -> (r: (u64, bool, bool))
    requires
        tick_count < u64::MAX,
    ensures
        r.0 == tick_count + 1,
        r.1,
        r.2 == (message_age matches Some(a) && a > 3),
{
    let expired = match message_age {
        Some(a) => a > 3,
        None => false,
    };
    (tick_count + 1, true, expired)
}

/// Going back right after showing a screen, with normal input, brings back
/// the screen and the history.
pub proof fn lemma_push_then_pop(a: AppModel, b: AppModel, c: AppModel, s: Screen)
    requires
        a.mode == InputMode::Normal,
        pushed(a, b, s),
        popped(b, c),
    ensures
        c.current_screen == a.current_screen,
        c.screen_history@ == a.screen_history@,
        c.mode == a.mode,
        same_data(a, c),
{
    assert(b.screen_history@.drop_last() =~= a.screen_history@);
}

/// Switching to the next tab and then back lands on the tab one started on.
pub proof fn lemma_tab_round_trip(t: nat)
    requires
        t < 6,
    ensures
        next_tab(next_tab(t, false), true) == t,
        next_tab(next_tab(t, true), false) == t,
{
}

/// The inbound's TLS settings name the domain `d` as server.
pub open spec fn tls_domain_is(e: ConfigEntry, d: Seq<char>) -> bool {
    e.config.stream_settings.tls_settings matches Some(t) && ot(t.server_name) == Some(d)
}

/// `e2` is `e` with its TLS certificates replaced by the one certificate
/// of `cert`.
pub open spec fn cert_installed(e: ConfigEntry, e2: ConfigEntry, cert: CertInfo) -> bool {
    let t = e.config.stream_settings.tls_settings->Some_0;
    let t2 = e2.config.stream_settings.tls_settings->Some_0;
    &&& e2.config.stream_settings.tls_settings is Some
    &&& t2.server_name == t.server_name
    &&& t2.alpn == t.alpn
    &&& t2.min_version == t.min_version
    &&& t2.certificates@.len() == 1
    &&& t2.certificates@[0].certificate_file@ == cert.cert_path@
    &&& t2.certificates@[0].key_file@ == cert.key_path@
    &&& e2 == (ConfigEntry {
        config: InboundConfig {
            stream_settings: crate::model::stream::StreamSettings {
                tls_settings: e2.config.stream_settings.tls_settings,
                ..e.config.stream_settings
            },
            ..e.config
        },
        ..e
    })
}

/// The positions of the inbounds among the first `n` whose TLS names `d`.
pub open spec fn indices_for(es: Seq<ConfigEntry>, d: Seq<char>, n: nat) -> Seq<usize>
    decreases n,
{
    if n == 0 {
        Seq::empty()
    } else if tls_domain_is(es[n - 1], d) {
        indices_for(es, d, (n - 1) as nat).push((n - 1) as usize)
    } else {
        indices_for(es, d, (n - 1) as nat)
    }
}

/// Each field labelled `Public Key` or `Private Key` shows the matching key;
/// nothing else of the fields changes.
pub open spec fn keys_shown(fs: Seq<WizardField>, fs2: Seq<WizardField>, private: Seq<char>, public: Seq<char>) -> bool {
    &&& fs2.len() == fs.len()
    &&& forall|i: int| 0 <= i < fs.len() ==> {
        let (f, g) = (#[trigger] fs[i], fs2[i]);
        &&& g.label == f.label
        &&& g.field_type == f.field_type
        &&& g.options == f.options
        &&& g.selected_option == f.selected_option
        &&& g.is_open == f.is_open
        &&& g.value@ == (if f.label@ == "Public Key"@ {
            public
        } else if f.label@ == "Private Key"@ {
            private
        } else {
            f.value@
        })
    }
}

/// Whether an inbound other than `skip` already listens on the same port
/// and address.
pub open spec fn port_conflict(es: Seq<ConfigEntry>, inb: InboundConfig, skip: Option<usize>) -> bool {
    exists|i: int| 0 <= i < es.len() && skip != Some(i as usize) && #[trigger] es[i].config.port == inb.port
        && es[i].config.listen@ == inb.listen@
}

/// What Esc does before the screen sees it (see `handle_escape`): the
/// wizard's dropdowns close, the certificate form or the settings field
/// closes; `r` says whether Esc was used.
pub open spec fn escaped(pre: AppModel, post: AppModel, r: bool) -> bool {
    &&& same_data(pre, post)
    &&& post.command_cursor == pre.command_cursor
    &&& post.mode == pre.mode
    &&& post.screen_history@ == pre.screen_history@
    &&& match pre.current_screen {
        Screen::InboundWizard(w) => post.current_screen matches Screen::InboundWizard(w2)
            && r == any_open(w.fields@)
            && w2.fields@.len() == w.fields@.len()
            && (forall|i: int| 0 <= i < w.fields@.len() ==> #[trigger] w2.fields@[i] == closed(w.fields@[i]))
            && w2.current_step == w.current_step && w2.builder == w.builder && w2.focused == w.focused
            && w2.edit_index == w.edit_index && w2.selected_template == w.selected_template
            && w2.json_preview == w.json_preview && w2.auto_restart == w.auto_restart,
        Screen::SslManagement { selected, editing } => r == editing is Some
            && post.current_screen == (Screen::SslManagement { selected, editing: None }),
        Screen::Settings(e) => match e {
            Some(ed) => r && if ed.editing || ed.cf_sub is Some {
                post.current_screen == pre.current_screen
            } else {
                post.current_screen == Screen::Settings(None)
            },
            None => !r && post.current_screen == pre.current_screen,
        },
        _ => !r && post.current_screen == pre.current_screen,
    }
}

impl AppModel {
    /// Whether an inbound other than `skip` already listens on the port and
    /// address of `inbound`.
    pub fn detect_port_conflict(&self, inbound: &InboundConfig, skip: Option<usize>) -> (r: bool)
        ensures
            r == port_conflict(self.inbounds@, *inbound, skip),
    {
        let mut i: usize = 0;
        while i < self.inbounds.len()
            invariant
                i <= self.inbounds@.len(),
                forall|j: int| 0 <= j < i ==> !(skip != Some(j as usize) && #[trigger] self.inbounds@[j].config.port == inbound.port
                    && self.inbounds@[j].config.listen@ == inbound.listen@),
            decreases self.inbounds@.len() - i,
        {
            let e = &self.inbounds[i];
            let skipped = match skip {
                Some(k) => k == i,
                None => false,
            };
            if !skipped && e.config.port == inbound.port && str_eq(e.config.listen.as_str(), inbound.listen.as_str()) {
                return true;
            }
            i += 1;
        }
        false
    }

    /// Esc on the current screen: closes the wizard's open dropdowns, the
    /// certificate form, or the settings field (a field being typed or the
    /// Cloudflare menu keeps Esc for itself); says whether Esc was used.
    pub fn handle_escape(&mut self) -> (r: bool)
        ensures
            escaped(*old(self), *final(self), r),
    {
        match &mut self.current_screen {
            Screen::InboundWizard(wiz) => wiz.close_dropdowns(),
            Screen::SslManagement { selected: _, editing } => {
                if editing.is_some() {
                    *editing = None;
                    true
                } else {
                    false
                }
            },
            Screen::Settings(edit) => {
                let keep = match edit {
                    Some(ed) => ed.editing || ed.cf_sub.is_some(),
                    None => {
                        return false;
                    },
                };
                if !keep {
                    *edit = None;
                }
                true
            },
            _ => false,
        }
    }

    /// A certificate was issued: every inbound whose TLS names its domain
    /// gets it as its only certificate, and it joins the certificates.
    /// Returns the positions of the inbounds that changed, in order.
    pub fn cert_issued(&mut self, cert: CertInfo) -> (changed: Vec<usize>)
        ensures
            final(self).inbounds@.len() == old(self).inbounds@.len(),
            forall|i: int| 0 <= i < old(self).inbounds@.len() ==> if tls_domain_is(#[trigger] old(self).inbounds@[i], cert.domain@) {
                cert_installed(old(self).inbounds@[i], final(self).inbounds@[i], cert)
            } else {
                final(self).inbounds@[i] == old(self).inbounds@[i]
            },
            changed@ == indices_for(old(self).inbounds@, cert.domain@, old(self).inbounds@.len()),
            final(self).certificates@ == old(self).certificates@.push(cert),
            final(self).current_screen == old(self).current_screen,
            final(self).screen_history@ == old(self).screen_history@,
            final(self).mode == old(self).mode,
            final(self).command_cursor == old(self).command_cursor,
            final(self).routing_rules@ == old(self).routing_rules@,
            final(self).settings == old(self).settings,
            final(self).should_quit == old(self).should_quit,
            final(self).message == old(self).message,
    {
        let mut entries: Vec<ConfigEntry> = Vec::new();
        std::mem::swap(&mut entries, &mut self.inbounds);
        let ghost orig = entries@;
        let mut changed: Vec<usize> = Vec::new();
        let n = entries.len();
        let mut i: usize = 0;
        while i < n
            invariant
                n == orig.len(),
                i <= n,
                entries@.len() == n,
                forall|j: int| 0 <= j < i ==> if tls_domain_is(#[trigger] orig[j], cert.domain@) {
                    cert_installed(orig[j], entries@[j], cert)
                } else {
                    entries@[j] == orig[j]
                },
                forall|j: int| i <= j < n ==> entries@[j] == orig[j],
                changed@ == indices_for(orig, cert.domain@, i as nat),
            decreases n - i,
        {
            let mut e = entries.remove(i);
            let ghost e0 = e;
            let mut hit = false;
            if let Some(tls) = &mut e.config.stream_settings.tls_settings {
                let names = match &tls.server_name {
                    Some(sn) => str_eq(sn.as_str(), cert.domain.as_str()),
                    None => false,
                };
                if names {
                    let mut certs: Vec<TlsCertificate> = Vec::new();
                    certs.push(TlsCertificate { certificate_file: cert.cert_path.clone(), key_file: cert.key_path.clone() });
                    tls.certificates = certs;
                    hit = true;
                }
            }
            assert(hit == tls_domain_is(e0, cert.domain@));
            if hit {
                assert(cert_installed(e0, e, cert));
                changed.push(i);
            } else {
                assert(e == e0);
            }
            let ghost before = entries@;
            entries.insert(i, e);
            assert(entries@ =~= before.insert(i as int, e));
            i += 1;
        }
        self.inbounds = entries;
        self.certificates.push(cert);
        changed
    }

    /// Shows freshly generated Reality keys in the wizard, if it is open:
    /// in its builder and in its key fields.
    pub fn set_reality_keys(&mut self, private: String, public: String)
        ensures
            same_data(*old(self), *final(self)),
            final(self).command_cursor == old(self).command_cursor,
            final(self).mode == old(self).mode,
            final(self).screen_history@ == old(self).screen_history@,
            match old(self).current_screen {
                Screen::InboundWizard(w) => final(self).current_screen matches Screen::InboundWizard(w2)
                    && w2.builder@ == (crate::ui::builder::BuilderView {
                        reality_public_key: Some(public@),
                        reality_private_key: Some(private@),
                        ..w.builder@
                    })
                    && keys_shown(w.fields@, w2.fields@, private@, public@)
                    && w2.current_step == w.current_step && w2.focused == w.focused
                    && w2.edit_index == w.edit_index && w2.selected_template == w.selected_template
                    && w2.json_preview == w.json_preview && w2.auto_restart == w.auto_restart,
                _ => final(self).current_screen == old(self).current_screen,
            },
    {
        if let Screen::InboundWizard(wiz) = &mut self.current_screen {
            wiz.builder.reality_public_key = Some(public.clone());
            wiz.builder.reality_private_key = Some(private.clone());
            let mut fields: Vec<WizardField> = Vec::new();
            std::mem::swap(&mut fields, &mut wiz.fields);
            let ghost fs = fields@;
            let n = fields.len();
            let mut i: usize = 0;
            while i < n
                invariant
                    n == fs.len(),
                    i <= n,
                    fields@.len() == n,
                    forall|j: int| i <= j < n ==> fields@[j] == fs[j],
                    keys_shown(fs.take(i as int), fields@.take(i as int), private@, public@),
                decreases n - i,
            {
                let ghost before = fields@;
                let mut f = fields.remove(i);
                if str_eq(f.label.as_str(), "Public Key") {
                    f.value = public.clone();
                } else if str_eq(f.label.as_str(), "Private Key") {
                    f.value = private.clone();
                }
                fields.insert(i, f);
                assert(fields@ =~= before.update(i as int, f));
                assert(fs.take(i + 1) =~= fs.take(i as int).push(fs[i as int]));
                assert(fields@.take(i + 1) =~= fields@.take(i as int).push(f));
                i += 1;
            }
            assert(fs.take(n as int) =~= fs);
            assert(fields@.take(n as int) =~= fields@);
            wiz.fields = fields;
        }
    }

    /// Puts fetched log lines into the log viewer, if it is open.
    pub fn set_log_lines(&mut self, lines: Vec<String>)
        ensures
            same_data(*old(self), *final(self)),
            final(self).command_cursor == old(self).command_cursor,
            final(self).mode == old(self).mode,
            final(self).screen_history@ == old(self).screen_history@,
            match old(self).current_screen {
                Screen::LogViewer(st) => final(self).current_screen matches Screen::LogViewer(st2)
                    && st2.lines@ == lines@ && st2.auto_scroll == st.auto_scroll
                    && st2.scroll_offset == st.scroll_offset && st2.level_filter == st.level_filter,
                _ => final(self).current_screen == old(self).current_screen,
            },
    {
        if let Screen::LogViewer(st) = &mut self.current_screen {
            st.lines = lines;
        }
    }
}

/// What the application must do outside the model after an action.
#[derive(Debug, Clone)]
pub enum Effect {
    Nothing,
    /// Save a new inbound (enabled), reload the configurations, write the
    /// Xray configuration and show the inbound list.
    SaveInbound(InboundConfig),
    /// Delete the file, save the inbound in its place (enabled or not as
    /// before), reload, write the Xray configuration and show the list.
    ReplaceInbound { filename: String, enabled: bool, inbound: InboundConfig },
    /// Delete the file, reload, write the Xray configuration and show the
    /// list.
    DeleteInbound(String),
    /// Save loaded inbound `index` again, and write the Xray configuration
    /// when `write`.
    SaveEntry { index: usize, write: bool },
    /// Enable or disable the configuration file, reload and write the Xray
    /// configuration.
    ToggleFile(String),
    /// An action on services, files or processes that only the application
    /// carries out.
    Outside(Action),
}

/// The data other than the inbounds and the message are the same.
pub open spec fn same_rest(pre: AppModel, post: AppModel) -> bool {
    &&& post.certificates@ == pre.certificates@
    &&& post.routing_rules@ == pre.routing_rules@
    &&& post.settings == pre.settings
    &&& post.should_quit == pre.should_quit
}

/// The screens, the input mode and the command cursor are the same.
pub open spec fn same_nav(pre: AppModel, post: AppModel) -> bool {
    &&& post.current_screen == pre.current_screen
    &&& post.screen_history@ == pre.screen_history@
    &&& post.mode == pre.mode
    &&& post.command_cursor == pre.command_cursor
}

/// Nothing of the model changed.
pub open spec fn model_unchanged(pre: AppModel, post: AppModel) -> bool {
    same_data(pre, post) && same_nav(pre, post)
}

/// Only the status message changed, to `m`.
pub open spec fn message_set(pre: AppModel, post: AppModel, m: Seq<char>) -> bool {
    &&& same_nav(pre, post)
    &&& same_rest(pre, post)
    &&& post.inbounds@ == pre.inbounds@
    &&& post.message matches Some(x) && x@ == m
}

/// Only the current screen changed, to `s`.
pub open spec fn screen_shown(pre: AppModel, post: AppModel, s: Screen) -> bool {
    &&& same_data(pre, post)
    &&& post.current_screen == s
    &&& post.screen_history@ == pre.screen_history@
    &&& post.mode == pre.mode
    &&& post.command_cursor == pre.command_cursor
}

/// Only the inbound of loaded configuration `i` changed.
pub open spec fn entry_config_changed(pre: AppModel, post: AppModel, i: int) -> bool {
    &&& post.inbounds@.len() == pre.inbounds@.len()
    &&& post.inbounds@ == pre.inbounds@.update(i, ConfigEntry { config: post.inbounds@[i].config, ..pre.inbounds@[i] })
}

/// The action is one that only the application carries out.
pub open spec fn is_outside(a: Action) -> bool {
    match a {
        Action::RestartXray | Action::StartXray | Action::StopXray | Action::InstallXray
        | Action::UninstallXray | Action::InstallSystemd | Action::GenerateRealityKeys
        | Action::RefreshInbounds | Action::IssueCertWithMethod { .. } | Action::EnableBBR
        | Action::DisableBBR | Action::CheckBBR | Action::UpdateGeoFiles | Action::SyncNTP
        | Action::CheckNTP | Action::SaveRouting | Action::FetchLogs(_) | Action::RenewCert(_)
        | Action::CopyToClipboard(_) | Action::ServeQr(_) => true,
        _ => false,
    }
}

/// What an action does to the model and what it leaves to the application.
/// Screens are shown, pushed and popped; a new or changed inbound that
/// would listen where another one does is refused with a message; user
/// changes go into the inbound and are saved; the subscription of all
/// inbounds is shown; settings are replaced; quitting is noted. Saving,
/// deleting and toggling files and the actions on services are left to the
/// application.
pub open spec fn action_done(pre: AppModel, a: Action, post: AppModel, eff: Effect) -> bool {
    let len = pre.inbounds@.len();
    match a {
        Action::Navigate(s) => {
            &&& same_data(pre, post)
            &&& post.current_screen == s
            &&& post.screen_history@.len() == 0
            &&& post.mode == InputMode::Normal
            &&& post.command_cursor == pre.command_cursor
            &&& eff is Nothing
        },
        Action::PushScreen(s) => pushed(pre, post, s) && eff is Nothing,
        Action::PopScreen => popped(pre, post) && eff is Nothing,
        Action::SaveInbound(inb) => if port_conflict(pre.inbounds@, inb, None) {
            message_set(pre, post, "Port conflict detected"@) && eff is Nothing
        } else {
            model_unchanged(pre, post) && eff == Effect::SaveInbound(inb)
        },
        Action::UpdateInbound(idx, inb) => if idx < len {
            if port_conflict(pre.inbounds@, inb, Some(idx)) {
                message_set(pre, post, "Port conflict detected"@) && eff is Nothing
            } else {
                &&& model_unchanged(pre, post)
                &&& eff matches Effect::ReplaceInbound { filename, enabled, inbound }
                &&& filename == pre.inbounds@[idx as int].filename
                &&& enabled == pre.inbounds@[idx as int].enabled
                &&& inbound == inb
            }
        } else {
            screen_shown(pre, post, Screen::InboundList) && eff is Nothing
        },
        Action::DeleteInbound(idx) => if idx < len {
            model_unchanged(pre, post) && eff == Effect::DeleteInbound(pre.inbounds@[idx as int].filename)
        } else {
            screen_shown(pre, post, Screen::InboundList) && eff is Nothing
        },
        Action::ToggleInbound(idx) => if idx < len {
            model_unchanged(pre, post) && eff == Effect::ToggleFile(pre.inbounds@[idx as int].filename)
        } else {
            model_unchanged(pre, post) && eff is Nothing
        },
        Action::AddUser(idx, data) => if idx < len {
            &&& entry_config_changed(pre, post, idx as int)
            &&& user_added(pre.inbounds@[idx as int].config, post.inbounds@[idx as int].config, data)
            &&& same_nav(pre, post) && same_rest(pre, post)
            &&& post.message matches Some(m) && m@ == "User added"@
            &&& eff == (Effect::SaveEntry { index: idx, write: true })
        } else {
            model_unchanged(pre, post) && eff is Nothing
        },
        Action::DeleteUser(idx, user) => if idx < len {
            &&& entry_config_changed(pre, post, idx as int)
            &&& user_deleted(pre.inbounds@[idx as int].config, post.inbounds@[idx as int].config, user as nat)
            &&& same_nav(pre, post) && same_rest(pre, post)
            &&& post.message matches Some(m) && m@ == "User removed"@
            &&& eff == (Effect::SaveEntry { index: idx, write: true })
        } else {
            model_unchanged(pre, post) && eff is Nothing
        },
        Action::SaveUser { inbound_idx, user_idx, proto, labels, values, is_new } => if inbound_idx < len {
            &&& entry_config_changed(pre, post, inbound_idx as int)
            &&& user_saved(pre.inbounds@[inbound_idx as int].config, post.inbounds@[inbound_idx as int].config,
                user_idx as nat, proto@, texts(values@), is_new)
            &&& same_rest(pre, post)
            &&& post.current_screen == (Screen::UserManager { inbound_idx, selected: user_idx })
            &&& post.screen_history@ == pre.screen_history@ && post.mode == pre.mode
            &&& post.command_cursor == pre.command_cursor
            &&& post.message matches Some(m) && m@ == (if is_new { "User added"@ } else { "User updated"@ })
            &&& eff == (Effect::SaveEntry { index: inbound_idx, write: false })
        } else {
            model_unchanged(pre, post) && eff is Nothing
        },
        Action::ExportSubscription => {
            &&& same_data(pre, post)
            &&& post.current_screen matches Screen::ShareExport { content }
                && content@ == base64_standard(join(
                    all_links(entry_configs(pre.inbounds@), link_address(pre.settings.server_public_ip)),
                    "\n"@,
                ))
            &&& post.screen_history@ == pre.screen_history@ && post.mode == pre.mode
            &&& post.command_cursor == pre.command_cursor
            &&& eff is Nothing
        },
        Action::UpdateSettings(st) => {
            &&& same_nav(pre, post)
            &&& post.settings == st
            &&& post.inbounds@ == pre.inbounds@ && post.certificates@ == pre.certificates@
            &&& post.routing_rules@ == pre.routing_rules@ && post.should_quit == pre.should_quit
            &&& post.message matches Some(m) && m@ == "Saved"@
            &&& eff is Nothing
        },
        Action::GenerateDemo => message_set(pre, post, "not implemented"@) && eff is Nothing,
        Action::ShowMessage(m) => message_set(pre, post, m@) && eff is Nothing,
        Action::Quit => {
            &&& same_nav(pre, post)
            &&& post.should_quit
            &&& post.inbounds@ == pre.inbounds@ && post.certificates@ == pre.certificates@
            &&& post.routing_rules@ == pre.routing_rules@ && post.settings == pre.settings
            &&& post.message == pre.message
            &&& eff is Nothing
        },
        _ => model_unchanged(pre, post) && eff == Effect::Outside(a),
    }
}

impl AppModel {
    fn change_entry_user(&mut self, idx: usize, data: UserData)
        requires
            idx < old(self).inbounds@.len(),
        ensures
            entry_config_changed(*old(self), *final(self), idx as int),
            user_added(old(self).inbounds@[idx as int].config, final(self).inbounds@[idx as int].config, data),
            same_nav(*old(self), *final(self)),
            same_rest(*old(self), *final(self)),
            final(self).message == old(self).message,
    {
        let ghost before = self.inbounds@;
        let mut e = self.inbounds.remove(idx);
        add_user(&mut e.config, data);
        self.inbounds.insert(idx, e);
        assert(self.inbounds@ =~= before.update(idx as int, e));
    }

    fn remove_entry_user(&mut self, idx: usize, user: usize)
        requires
            idx < old(self).inbounds@.len(),
        ensures
            entry_config_changed(*old(self), *final(self), idx as int),
            user_deleted(old(self).inbounds@[idx as int].config, final(self).inbounds@[idx as int].config, user as nat),
            same_nav(*old(self), *final(self)),
            same_rest(*old(self), *final(self)),
            final(self).message == old(self).message,
    {
        let ghost before = self.inbounds@;
        let mut e = self.inbounds.remove(idx);
        delete_user(&mut e.config, user);
        self.inbounds.insert(idx, e);
        assert(self.inbounds@ =~= before.update(idx as int, e));
    }

    fn save_entry_user(&mut self, idx: usize, user: usize, proto: &str, values: &Vec<String>, is_new: bool)
        requires
            idx < old(self).inbounds@.len(),
        ensures
            entry_config_changed(*old(self), *final(self), idx as int),
            user_saved(old(self).inbounds@[idx as int].config, final(self).inbounds@[idx as int].config,
                user as nat, proto@, texts(values@), is_new),
            same_nav(*old(self), *final(self)),
            same_rest(*old(self), *final(self)),
            final(self).message == old(self).message,
    {
        let ghost before = self.inbounds@;
        let mut e = self.inbounds.remove(idx);
        save_user(&mut e.config, user, proto, values, is_new);
        self.inbounds.insert(idx, e);
        assert(self.inbounds@ =~= before.update(idx as int, e));
    }

    /// Carries out what an action asks of the model and says what is left
    /// for the application (see `action_done`).
    pub fn handle_action(&mut self, action: Action) -> (eff: Effect)
        ensures
            action_done(*old(self), action, *final(self), eff),
    {
        let ghost a = action;
        match action {
            Action::Navigate(s) => {
                self.screen_history.clear();
                self.mode = InputMode::Normal;
                self.current_screen = s;
                Effect::Nothing
            },
            Action::PushScreen(s) => {
                self.push_screen(s);
                Effect::Nothing
            },
            Action::PopScreen => {
                self.pop_screen();
                Effect::Nothing
            },
            Action::SaveInbound(inbound) => {
                if self.detect_port_conflict(&inbound, None) {
                    self.show_msg(lit("Port conflict detected"));
                    return Effect::Nothing;
                }
                Effect::SaveInbound(inbound)
            },
            Action::UpdateInbound(idx, inbound) => {
                if idx < self.inbounds.len() {
                    if self.detect_port_conflict(&inbound, Some(idx)) {
                        self.show_msg(lit("Port conflict detected"));
                        return Effect::Nothing;
                    }
                    let e = &self.inbounds[idx];
                    return Effect::ReplaceInbound { filename: e.filename.clone(), enabled: e.enabled, inbound };
                }
                self.current_screen = Screen::InboundList;
                Effect::Nothing
            },
            Action::DeleteInbound(idx) => {
                if idx < self.inbounds.len() {
                    return Effect::DeleteInbound(self.inbounds[idx].filename.clone());
                }
                self.current_screen = Screen::InboundList;
                Effect::Nothing
            },
            Action::ToggleInbound(idx) => {
                if idx < self.inbounds.len() {
                    return Effect::ToggleFile(self.inbounds[idx].filename.clone());
                }
                Effect::Nothing
            },
            Action::AddUser(idx, data) => {
                if idx < self.inbounds.len() {
                    self.change_entry_user(idx, data);
                    self.show_msg(lit("User added"));
                    return Effect::SaveEntry { index: idx, write: true };
                }
                Effect::Nothing
            },
            Action::DeleteUser(idx, user) => {
                if idx < self.inbounds.len() {
                    self.remove_entry_user(idx, user);
                    self.show_msg(lit("User removed"));
                    return Effect::SaveEntry { index: idx, write: true };
                }
                Effect::Nothing
            },
            Action::SaveUser { inbound_idx, user_idx, proto, labels, values, is_new } => {
                if inbound_idx < self.inbounds.len() {
                    self.save_entry_user(inbound_idx, user_idx, proto.as_str(), &values, is_new);
                    self.show_msg(if is_new { lit("User added") } else { lit("User updated") });
                    self.current_screen = Screen::UserManager { inbound_idx, selected: user_idx };
                    return Effect::SaveEntry { index: inbound_idx, write: false };
                }
                Effect::Nothing
            },
            Action::ExportSubscription => {
                let ip = link_address_of(&self.settings.server_public_ip);
                let content = SubscriptionService::export_entries(&self.inbounds, ip.as_str());
                self.current_screen = Screen::ShareExport { content };
                Effect::Nothing
            },
            Action::UpdateSettings(st) => {
                self.settings = st;
                self.show_msg(lit("Saved"));
                Effect::Nothing
            },
            Action::GenerateDemo => {
                self.show_msg(lit("not implemented"));
                Effect::Nothing
            },
            Action::ShowMessage(m) => {
                self.show_msg(m);
                Effect::Nothing
            },
            Action::Quit => {
                self.should_quit = true;
                Effect::Nothing
            },
            other => Effect::Outside(other),
        }
    }
}

/// The screens that need more than their own state to take keys without
/// failing: a confirmation to delete certificate `i` needs it to exist, the
/// certificate screen a valid selection, the user manager a selection
/// below the largest number.
pub open spec fn screen_ok(s: Screen, certs: Seq<CertInfo>) -> bool {
    match s {
        Screen::ConfirmDialog { on_confirm: ConfirmedAction::DeleteCert(i), .. } => i < certs.len(),
        Screen::SslManagement { selected, editing } => ssl_state_valid(certs, selected as nat, editing),
        Screen::UserManager { selected, .. } => selected < usize::MAX,
        _ => true,
    }
}

/// The current screen and every screen to go back to can take keys.
pub open spec fn keys_ok(m: AppModel) -> bool {
    &&& screen_ok(m.current_screen, m.certificates@)
    &&& forall|i: int| 0 <= i < m.screen_history@.len() ==> screen_ok(#[trigger] m.screen_history@[i], m.certificates@)
}

/// Only the command cursor changed.
pub open spec fn cursor_only(pre: AppModel, post: AppModel) -> bool {
    &&& same_data(pre, post)
    &&& post.current_screen == pre.current_screen
    &&& post.screen_history@ == pre.screen_history@
    &&& post.mode == pre.mode
}

/// The screens change as `pop_screen` makes them (see `popped`); the data
/// may differ.
pub open spec fn popped_nav(pre: AppModel, post: AppModel) -> bool {
    &&& post.command_cursor == pre.command_cursor
    &&& if pre.mode != InputMode::Normal {
        &&& post.mode == InputMode::Normal
        &&& post.current_screen == pre.current_screen
        &&& post.screen_history@ == pre.screen_history@
    } else if pre.screen_history@.len() > 0 {
        &&& post.mode == pre.mode
        &&& post.current_screen == pre.screen_history@.last()
        &&& post.screen_history@ == pre.screen_history@.drop_last()
    } else {
        &&& post.mode == pre.mode
        &&& post.current_screen == Screen::Dashboard
        &&& post.screen_history@ == pre.screen_history@
    }
}

/// Keys on a confirmation dialog: Enter goes back and asks for what was
/// confirmed (a certificate record is deleted at once); Esc goes back.
pub open spec fn confirm_key_done(k: KeyPress, pre: AppModel, on: ConfirmedAction, post: AppModel, r: Option<Action>) -> bool {
    if k.code == KeyInput::Enter {
        &&& popped_nav(pre, post)
        &&& match on {
            ConfirmedAction::DeleteInbound(i) => same_data(pre, post) && r == Some(Action::DeleteInbound(i)),
            ConfirmedAction::DeleteUser { inbound_idx, user_idx } => same_data(pre, post)
                && r == Some(Action::DeleteUser(inbound_idx, user_idx)),
            ConfirmedAction::DeleteCert(i) => {
                &&& post.certificates@ == pre.certificates@.remove(i as int)
                &&& post.inbounds@ == pre.inbounds@ && post.routing_rules@ == pre.routing_rules@
                &&& post.settings == pre.settings && post.should_quit == pre.should_quit
                &&& post.message == pre.message
                &&& r matches Some(Action::ShowMessage(m)) && m@ == "Deleted"@
            },
            ConfirmedAction::RestartXray => same_data(pre, post) && r == Some(Action::RestartXray),
            ConfirmedAction::StopXray => same_data(pre, post) && r == Some(Action::StopXray),
        }
    } else if k.code == KeyInput::Esc {
        popped(pre, post) && r is None
    } else {
        model_unchanged(pre, post) && r is None
    }
}

/// Keys on the share screen: Esc goes back; `y` asks to copy the text,
/// `o` to serve it as a QR code.
pub open spec fn share_key_done(k: KeyPress, pre: AppModel, content: String, post: AppModel, r: Option<Action>) -> bool {
    if k.code == KeyInput::Esc {
        popped(pre, post) && r is None
    } else if k.code == KeyInput::Char('y') {
        &&& model_unchanged(pre, post)
        &&& r matches Some(Action::CopyToClipboard(c)) && c@ == content@
    } else if k.code == KeyInput::Char('o') {
        &&& model_unchanged(pre, post)
        &&& r matches Some(Action::ServeQr(c)) && c@ == content@
    } else {
        model_unchanged(pre, post) && r is None
    }
}

/// What picking inbound `i` asks for: its wizard, a confirmation to delete
/// it, toggling it, its users, or the share link of its first user (or a
/// message when its protocol has none).
pub open spec fn picked(action: PickerAction, pre: AppModel, i: nat, r: Option<Action>) -> bool {
    let e = pre.inbounds@[i as int];
    match action {
        PickerAction::EditConfig => r matches Some(Action::PushScreen(Screen::InboundWizard(w)))
            && editing_wizard(w, i as usize, e.config),
        PickerAction::DeleteConfig => r matches Some(Action::PushScreen(Screen::ConfirmDialog { message, on_confirm }))
            && message@ == "Delete '"@ + e.filename@ + "'?"@
            && on_confirm == ConfirmedAction::DeleteInbound(i as usize),
        PickerAction::ToggleConfig => r == Some(Action::ToggleInbound(i as usize)),
        PickerAction::ManageUsers => r == Some(Action::PushScreen(Screen::UserManager { inbound_idx: i as usize, selected: 0 })),
        PickerAction::CopyLink => match share_link(e.config, link_address(pre.settings.server_public_ip), 0) {
            Some(l) => r matches Some(Action::PushScreen(Screen::ShareExport { content })) && content@ == l,
            None => r matches Some(Action::ShowMessage(m)) && m@ == "Sharing not supported for this protocol"@,
        },
    }
}

/// Keys on the config picker: up and down move over the inbounds, Esc goes
/// back, Enter goes back and asks for what the picker is for (see
/// `picked`).
pub open spec fn picker_key_done(
    k: KeyPress,
    pre: AppModel,
    sel: usize,
    action: PickerAction,
    post: AppModel,
    r: Option<Action>,
) -> bool {
    let len = pre.inbounds@.len();
    if k.code == KeyInput::Up || k.code == KeyInput::Char('k') {
        screen_shown(pre, post, Screen::ConfigPicker { selected: cursor_up(sel as nat) as usize, action }) && r is None
    } else if k.code == KeyInput::Down || k.code == KeyInput::Char('j') {
        screen_shown(pre, post, Screen::ConfigPicker { selected: cursor_down(sel as nat, len) as usize, action }) && r is None
    } else if k.code == KeyInput::Esc {
        popped(pre, post) && r is None
    } else if k.code == KeyInput::Enter && sel < len {
        popped(pre, post) && picked(action, pre, sel as nat, r)
    } else {
        model_unchanged(pre, post) && r is None
    }
}

/// The data but the certificates and the settings are the same, and so are
/// the screens to go back to and the input mode.
pub open spec fn frame_kept(pre: AppModel, post: AppModel) -> bool {
    &&& post.inbounds@ == pre.inbounds@
    &&& post.routing_rules@ == pre.routing_rules@
    &&& post.should_quit == pre.should_quit
    &&& post.message == pre.message
    &&& post.screen_history@ == pre.screen_history@
}

/// What a key press does on the current screen (its own key handling).
pub open spec fn screen_key_done(k: KeyPress, pre: AppModel, acme: bool, post: AppModel, r: Option<Action>) -> bool {
    let (c, c2) = (pre.command_cursor as nat, post.command_cursor as nat);
    match pre.current_screen {
        Screen::ConfirmDialog { on_confirm, .. } => confirm_key_done(k, pre, on_confirm, post, r),
        Screen::ShareExport { content } => share_key_done(k, pre, content, post, r),
        Screen::ConfigPicker { selected, action } => picker_key_done(k, pre, selected, action, post, r),
        Screen::Dashboard => cursor_only(pre, post) && dashboard_key_done(k, c, c2, r),
        Screen::InboundList => cursor_only(pre, post) && inbound_key_done(k, c, pre.inbounds@.len(), c2, r),
        Screen::Others => cursor_only(pre, post) && tools_key_done(k, c, c2, r),
        Screen::InboundWizard(w) => {
            &&& post.current_screen matches Screen::InboundWizard(w2) && wizard_key_done(k, w, pre.mode, w2, post.mode, r)
            &&& same_data(pre, post) && post.screen_history@ == pre.screen_history@
            &&& c2 == c
        },
        Screen::UserManager { inbound_idx, selected } => {
            &&& post.current_screen matches Screen::UserManager { inbound_idx: i2, selected: s2 } && i2 == inbound_idx
                && user_key_done(k, c, selected as nat, pre.inbounds@, inbound_idx as nat,
                    pre.settings.server_public_ip, c2, s2 as nat, r)
            &&& same_data(pre, post) && post.screen_history@ == pre.screen_history@ && post.mode == pre.mode
        },
        Screen::SslManagement { selected, editing } => {
            &&& post.current_screen matches Screen::SslManagement { selected: s2, editing: e2 } && match editing {
                Some(st) => form_key_done(k, st, pre.settings, e2, r) && c2 == c
                    && post.certificates@ == pre.certificates@ && s2 == selected,
                None => list_key_done(k, c, pre.certificates@, selected as nat, acme, c2, post.certificates@,
                    s2 as nat, e2, r),
            }
            &&& frame_kept(pre, post) && post.settings == pre.settings && post.mode == pre.mode
        },
        Screen::LogViewer(st) => {
            &&& post.current_screen matches Screen::LogViewer(st2) && log_key_done(k, st, c, st2, c2, r)
            &&& same_data(pre, post) && post.screen_history@ == pre.screen_history@ && post.mode == pre.mode
        },
        Screen::Settings(e) => {
            &&& post.current_screen matches Screen::Settings(e2)
                && settings_key_done(k, pre.settings, c, e, post.settings, c2, e2, r)
            &&& frame_kept(pre, post) && post.certificates@ == pre.certificates@ && post.mode == pre.mode
        },
    }
}

impl AppModel {
    fn confirm_key(&mut self, key: KeyPress, on: ConfirmedAction) -> (r: Option<Action>)
        requires
            old(self).current_screen matches Screen::ConfirmDialog { on_confirm, .. } && on_confirm == on,
            keys_ok(*old(self)),
        ensures
            confirm_key_done(key, *old(self), on, *final(self), r),
    {
        match key.code {
            KeyInput::Enter => {
                self.pop_screen();
                match on {
                    ConfirmedAction::DeleteInbound(i) => Some(Action::DeleteInbound(i)),
                    ConfirmedAction::DeleteUser { inbound_idx, user_idx } => Some(Action::DeleteUser(inbound_idx, user_idx)),
                    ConfirmedAction::DeleteCert(i) => {
                        self.certificates.remove(i);
                        Some(Action::ShowMessage(lit("Deleted")))
                    },
                    ConfirmedAction::RestartXray => Some(Action::RestartXray),
                    ConfirmedAction::StopXray => Some(Action::StopXray),
                }
            },
            KeyInput::Esc => {
                self.pop_screen();
                None
            },
            _ => None,
        }
    }

    fn picker_key(&mut self, key: KeyPress, sel: usize, action: PickerAction) -> (r: Option<Action>)
        requires
            old(self).current_screen == (Screen::ConfigPicker { selected: sel, action }),
        ensures
            picker_key_done(key, *old(self), sel, action, *final(self), r),
    {
        let len = self.inbounds.len();
        match key.code {
            KeyInput::Up | KeyInput::Char('k') => {
                let mut s = sel;
                move_up(&mut s);
                self.current_screen = Screen::ConfigPicker { selected: s, action };
                None
            },
            KeyInput::Down | KeyInput::Char('j') => {
                let mut s = sel;
                move_down(&mut s, len);
                self.current_screen = Screen::ConfigPicker { selected: s, action };
                None
            },
            KeyInput::Esc => {
                self.pop_screen();
                None
            },
            KeyInput::Enter => {
                if sel >= len {
                    return None;
                }
                let ghost pre = *self;
                self.pop_screen();
                let e = &self.inbounds[sel];
                match action {
                    PickerAction::EditConfig => Some(Action::PushScreen(Screen::InboundWizard(InboundWizardState::edit(sel, &e.config)))),
                    PickerAction::DeleteConfig => {
                        let m = cat("Delete '", e.filename.as_str());
                        let m = cat(m.as_str(), "'?");
                        Some(Action::PushScreen(Screen::ConfirmDialog { message: m, on_confirm: ConfirmedAction::DeleteInbound(sel) }))
                    },
                    PickerAction::ToggleConfig => Some(Action::ToggleInbound(sel)),
                    PickerAction::ManageUsers => Some(Action::PushScreen(Screen::UserManager { inbound_idx: sel, selected: 0 })),
                    PickerAction::CopyLink => {
                        let ip = link_address_of(&self.settings.server_public_ip);
                        match SubscriptionService::generate_share_link(&e.config, ip.as_str(), 0) {
                            Some(l) => Some(Action::PushScreen(Screen::ShareExport { content: l })),
                            None => Some(Action::ShowMessage(lit("Sharing not supported for this protocol"))),
                        }
                    },
                }
            },
            _ => None,
        }
    }

    /// The current screen's own key handling (see `screen_key_done`);
    /// `acme_installed` says whether acme.sh can be found.
    pub fn handle_screen_key(&mut self, key: KeyPress, acme_installed: bool) -> (r: Option<Action>)
        requires
            keys_ok(*old(self)),
        ensures
            screen_key_done(key, *old(self), acme_installed, *final(self), r),
    {
        match &self.current_screen {
            Screen::ConfirmDialog { on_confirm, .. } => {
                let on = *on_confirm;
                return self.confirm_key(key, on);
            },
            Screen::ShareExport { content } => {
                let text = content.clone();
                return match key.code {
                    KeyInput::Esc => {
                        self.pop_screen();
                        None
                    },
                    KeyInput::Char('y') => Some(Action::CopyToClipboard(text)),
                    KeyInput::Char('o') => Some(Action::ServeQr(text)),
                    _ => None,
                };
            },
            Screen::ConfigPicker { selected, action } => {
                let (sel, act) = (*selected, *action);
                return self.picker_key(key, sel, act);
            },
            _ => {},
        }
        let mut screen = Screen::Dashboard;
        std::mem::swap(&mut screen, &mut self.current_screen);
        let r = match &mut screen {
            Screen::Dashboard => dashboard::handle_key(key, &mut self.command_cursor),
            Screen::InboundList => inbound_list::handle_key(key, &mut self.command_cursor, self.inbounds.len()),
            Screen::Others => others::handle_key(key, &mut self.command_cursor),
            Screen::InboundWizard(wiz) => wizard_keys::handle_key(key, &mut self.mode, wiz),
            Screen::UserManager { inbound_idx, selected } => user_manager::handle_key(
                key,
                &mut self.command_cursor,
                selected,
                &self.inbounds,
                *inbound_idx,
                &self.settings.server_public_ip,
            ),
            Screen::SslManagement { selected, editing } => ssl_manager::handle_key(
                key,
                &mut self.command_cursor,
                &mut self.certificates,
                selected,
                editing,
                &self.settings,
                acme_installed,
            ),
            Screen::LogViewer(state) => log_viewer::handle_key(key, &mut self.command_cursor, state),
            Screen::Settings(editing) => settings_page::handle_key(key, &mut self.command_cursor, &mut self.settings, editing),
            _ => None,
        };
        self.current_screen = screen;
        r
    }
}

/// The settings page with a field open and the certificate screen with its
/// form open see Esc after the application has handled it.
pub open spec fn takes_esc(s: Screen) -> bool {
    (s matches Screen::Settings(e) && e is Some) || (s matches Screen::SslManagement { editing, .. } && editing is Some)
}

/// Esc as the application handles it (see `escaped`), then going back a
/// screen when it was not used.
pub open spec fn esc_then_back(pre: AppModel, m1: AppModel, h: bool, m2: AppModel) -> bool {
    escaped(pre, m1, h) && (if h { m2 == m1 } else { popped(m1, m2) })
}

/// What `switch_tab` does (see there).
pub open spec fn switched(pre: AppModel, post: AppModel, reverse: bool) -> bool {
    match tab_of(pre.current_screen) {
        Some(t) => {
            &&& fresh_tab(post.current_screen, next_tab(t, reverse))
            &&& post.screen_history@.len() == 0
            &&& post.mode == InputMode::Normal
            &&& post.command_cursor == 0
            &&& same_data(pre, post)
        },
        None => post == pre,
    }
}

/// What a key press does. With normal input: `q` quits; Esc is handled by
/// the application (see `escaped`), going back a screen when it was not
/// used, and then seen by screens that take it (see `takes_esc`); Tab
/// switches tabs (shift-Tab backwards); other keys go to the screen. While
/// typing or selecting, Esc returns to normal input (closing the wizard's
/// dropdowns when selecting) and other keys go to the screen.
pub open spec fn app_key_done(k: KeyPress, pre: AppModel, acme: bool, post: AppModel, r: Option<Action>) -> bool {
    match pre.mode {
        InputMode::Normal => if k.code == KeyInput::Char('q') {
            &&& post.should_quit
            &&& same_nav(pre, post)
            &&& post.inbounds@ == pre.inbounds@ && post.certificates@ == pre.certificates@
            &&& post.routing_rules@ == pre.routing_rules@ && post.settings == pre.settings
            &&& post.message == pre.message
            &&& r is None
        } else if k.code == KeyInput::Esc {
            exists|m1: AppModel, m2: AppModel, h: bool| #[trigger] esc_then_back(pre, m1, h, m2)
                && (if takes_esc(m2.current_screen) {
                    screen_key_done(k, m2, acme, post, r)
                } else {
                    post == m2 && r is None
                })
        } else if k.code == KeyInput::Tab {
            switched(pre, post, k.shift) && r is None
        } else {
            screen_key_done(k, pre, acme, post, r)
        },
        InputMode::Editing => if k.code == KeyInput::Esc {
            post == (AppModel { mode: InputMode::Normal, ..pre }) && r is None
        } else {
            screen_key_done(k, pre, acme, post, r)
        },
        InputMode::Selecting => if k.code == KeyInput::Esc {
            &&& r is None
            &&& post.mode == InputMode::Normal
            &&& same_data(pre, post) && post.screen_history@ == pre.screen_history@
            &&& post.command_cursor == pre.command_cursor
            &&& match pre.current_screen {
                Screen::InboundWizard(w) => post.current_screen matches Screen::InboundWizard(w2)
                    && w2.fields@.len() == w.fields@.len()
                    && (forall|i: int| 0 <= i < w.fields@.len() ==> #[trigger] w2.fields@[i] == closed(w.fields@[i]))
                    && w2.current_step == w.current_step && w2.builder == w.builder && w2.focused == w.focused
                    && w2.edit_index == w.edit_index && w2.selected_template == w.selected_template
                    && w2.json_preview == w.json_preview && w2.auto_restart == w.auto_restart,
                _ => post.current_screen == pre.current_screen,
            }
        } else {
            screen_key_done(k, pre, acme, post, r)
        },
    }
}

impl AppModel {
    /// What a key press does (see `app_key_done`); `acme_installed` says
    /// whether acme.sh can be found.
    pub fn handle_key(&mut self, key: KeyPress, acme_installed: bool) -> (r: Option<Action>)
        requires
            keys_ok(*old(self)),
        ensures
            app_key_done(key, *old(self), acme_installed, *final(self), r),
    {
        match self.mode {
            InputMode::Normal => {
                if key.code == KeyInput::Char('q') {
                    self.should_quit = true;
                    return None;
                }
                if key.code == KeyInput::Esc {
                    let ghost pre = *self;
                    let handled = self.handle_escape();
                    let ghost m1 = *self;
                    if !handled {
                        self.pop_screen();
                    }
                    let ghost m2 = *self;
                    let takes = match &self.current_screen {
                        Screen::Settings(e) => e.is_some(),
                        Screen::SslManagement { editing, .. } => editing.is_some(),
                        _ => false,
                    };
                    if takes {
                        assert(keys_ok(*self)) by {
                            if !handled && pre.screen_history@.len() > 0 {
                                assert(screen_ok(pre.screen_history@[pre.screen_history@.len() - 1], pre.certificates@));
                            }
                        }
                        let r = self.handle_screen_key(key, acme_installed);
                        assert(esc_then_back(pre, m1, handled, m2));
                        return r;
                    }
                    assert(esc_then_back(pre, m1, handled, m2));
                    return None;
                }
                if key.code == KeyInput::Tab {
                    self.switch_tab(key.shift);
                    return None;
                }
                self.handle_screen_key(key, acme_installed)
            },
            InputMode::Editing => {
                if key.code == KeyInput::Esc {
                    self.mode = InputMode::Normal;
                    return None;
                }
                self.handle_screen_key(key, acme_installed)
            },
            InputMode::Selecting => {
                if key.code == KeyInput::Esc {
                    if let Screen::InboundWizard(wiz) = &mut self.current_screen {
                        let _ = wiz.close_dropdowns();
                    }
                    self.mode = InputMode::Normal;
                    return None;
                }
                self.handle_screen_key(key, acme_installed)
            },
        }
    }
}

} // verus!
