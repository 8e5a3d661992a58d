use vstd::prelude::*;

use crate::model::settings::GlobalSettings;
use crate::text::{lit, pop_last, push_char, str_eq};
use crate::ui::app::Action;
use crate::ui::builder::{or_empty, ot};
use crate::ui::keys::{KeyInput, KeyPress, cursor_down, cursor_up, is_down, is_up, move_down, move_up};

verus! {

/// A settings field being edited, or the Cloudflare sub-menu.
#[derive(Debug, Clone)]
pub struct SettingsEditState {
    pub field: usize,
    pub value: String,
    pub editing: bool,
    /// `None` on the main menu, `Some(i)` on entry `i` of the Cloudflare menu.
    pub cf_sub: Option<usize>,
}

impl Default for SettingsEditState {
    fn default() -> (r: Self)
        ensures
            r.field == 0,
            r.value@ == Seq::<char>::empty(),
            !r.editing,
            r.cf_sub is None,
    {
        SettingsEditState { field: 0, value: String::new(), editing: false, cf_sub: None }
    }
}

/// The log level after `l` in the cycle warning, info, debug, error; any
/// other level goes to warning.
pub open spec fn next_log_level(l: Seq<char>) -> Seq<char> {
    if l == "warning"@ {
        "info"@
    } else if l == "info"@ {
        "debug"@
    } else if l == "debug"@ {
        "error"@
    } else if l == "error"@ {
        "warning"@
    } else {
        "warning"@
    }
}

/// A typed text as an optional setting: nothing when it is empty.
pub open spec fn optional_text(v: Seq<char>) -> Option<Seq<char>> {
    if v.len() == 0 { None } else { Some(v) }
}

/// The Cloudflare value shown for entry `sub` of the sub-menu: the email,
/// the token, or the zone (empty when not set).
pub open spec fn cf_value(s: GlobalSettings, sub: nat) -> Seq<char> {
    if sub == 0 {
        or_empty(ot(s.cf_email))
    } else if sub == 1 {
        or_empty(ot(s.cf_token))
    } else {
        or_empty(ot(s.cf_zone_id))
    }
}

/// The settings are the same, except perhaps setting `f`: 0 the binary, 1
/// the configuration path, 2 the log level, 3 the server IP, 4 the state
/// directory, 5 to 7 the Cloudflare email, token and zone.
pub open spec fn same_settings_except(s: GlobalSettings, s2: GlobalSettings, f: nat) -> bool {
    &&& (f != 0 ==> s2.xray_binary_path == s.xray_binary_path)
    &&& (f != 1 ==> s2.config_path == s.config_path)
    &&& (f != 2 ==> s2.log_level == s.log_level)
    &&& (f != 3 ==> s2.server_public_ip == s.server_public_ip)
    &&& (f != 4 ==> s2.state_dir == s.state_dir)
    &&& (f != 5 ==> s2.cf_email == s.cf_email)
    &&& (f != 6 ==> s2.cf_token == s.cf_token)
    &&& (f != 7 ==> s2.cf_zone_id == s.cf_zone_id)
}

/// The settings after saving `v` into field `f`: paths are stored as typed,
/// the IP and the Cloudflare values are cleared when `v` is empty; any other
/// field stores nothing.
pub open spec fn stored(s: GlobalSettings, s2: GlobalSettings, f: nat, v: Seq<char>) -> bool {
    &&& same_settings_except(s, s2, f)
    &&& (f == 0 ==> s2.xray_binary_path@ == v)
    &&& (f == 1 ==> s2.config_path@ == v)
    &&& (f == 2 ==> s2.log_level == s.log_level)
    &&& (f == 3 ==> ot(s2.server_public_ip) == optional_text(v))
    &&& (f == 4 ==> s2.state_dir@ == v)
    &&& (f == 5 ==> ot(s2.cf_email) == optional_text(v))
    &&& (f == 6 ==> ot(s2.cf_token) == optional_text(v))
    &&& (f == 7 ==> ot(s2.cf_zone_id) == optional_text(v))
}

/// The edit state holds these values.
pub open spec fn edit_is(e: Option<SettingsEditState>, field: nat, value: Seq<char>, editing: bool, cf_sub: Option<usize>) -> bool {
    e matches Some(ed) && ed.field == field && ed.value@ == value && ed.editing == editing && ed.cf_sub == cf_sub
}

/// Keys while a field is open. On the Cloudflare sub-menu: Esc leaves it,
/// up and down move over its three entries, Enter starts editing the entry
/// with its current value. While editing: Esc drops the edit, Enter stores
/// the value (see `stored`) and asks for the settings to be saved, typed
/// characters and backspace change the value. Other keys change nothing.
pub open spec fn open_key_done(
    k: KeyPress,
    s: GlobalSettings,
    ed: SettingsEditState,
    s2: GlobalSettings,
    e2: Option<SettingsEditState>,
    r: Option<Action>,
) -> bool {
    match ed.cf_sub {
        Some(sub) => {
            &&& s2 == s
            &&& r is None
            &&& if k.code == KeyInput::Esc {
                edit_is(e2, ed.field as nat, ed.value@, ed.editing, None)
            } else if is_up(k.code) {
                edit_is(e2, ed.field as nat, ed.value@, ed.editing, Some(cursor_up(sub as nat) as usize))
            } else if is_down(k.code) {
                edit_is(e2, ed.field as nat, ed.value@, ed.editing, Some(cursor_down(sub as nat, 3) as usize))
            } else if k.code == KeyInput::Enter {
                edit_is(e2, sub as nat, cf_value(s, sub as nat), true, Some(sub))
            } else {
                e2 == Some(ed)
            }
        },
        None => if ed.editing {
            match k.code {
                KeyInput::Esc => s2 == s && e2 is None && r is None,
                KeyInput::Enter => stored(s, s2, ed.field as nat, ed.value@) && e2 is None
                    && r == Some(Action::UpdateSettings(s2)),
                KeyInput::Char(c) => s2 == s && r is None
                    && edit_is(e2, ed.field as nat, ed.value@.push(c), true, None),
                KeyInput::Backspace => s2 == s && r is None
                    && edit_is(e2, ed.field as nat, if ed.value@.len() > 0 { ed.value@.drop_last() } else { ed.value@ }, true, None),
                _ => s2 == s && e2 == Some(ed) && r is None,
            }
        } else {
            s2 == s && e2 == Some(ed) && r is None
        },
    }
}

/// Keys on the settings menu: up and down move over the seven commands;
/// Enter opens a field for editing with its current value (binary, config
/// path, server IP, state directory), cycles the log level and asks for
/// the settings to be saved, opens the Cloudflare sub-menu, or asks for
/// the settings to be saved.
pub open spec fn menu_key_done(
    k: KeyPress,
    s: GlobalSettings,
    c: nat,
    s2: GlobalSettings,
    c2: nat,
    e2: Option<SettingsEditState>,
    r: Option<Action>,
) -> bool {
    if is_up(k.code) {
        s2 == s && c2 == cursor_up(c) && e2 is None && r is None
    } else if is_down(k.code) {
        s2 == s && c2 == cursor_down(c, 7) && e2 is None && r is None
    } else if k.code == KeyInput::Enter {
        &&& c2 == c
        &&& if c == 0 {
            s2 == s && r is None && edit_is(e2, 0, s.xray_binary_path@, true, None)
        } else if c == 1 {
            s2 == s && r is None && edit_is(e2, 1, s.config_path@, true, None)
        } else if c == 2 {
            &&& same_settings_except(s, s2, 2)
            &&& s2.log_level@ == next_log_level(s.log_level@)
            &&& e2 is None
            &&& r == Some(Action::UpdateSettings(s2))
        } else if c == 3 {
            s2 == s && r is None && edit_is(e2, 3, or_empty(ot(s.server_public_ip)), true, None)
        } else if c == 4 {
            s2 == s && r is None && edit_is(e2, 4, s.state_dir@, true, None)
        } else if c == 5 {
            s2 == s && r is None && edit_is(e2, 5, Seq::<char>::empty(), false, Some(0))
        } else if c == 6 {
            s2 == s && e2 is None && r == Some(Action::UpdateSettings(s))
        } else {
            s2 == s && e2 is None && r is None
        }
    } else {
        s2 == s && c2 == c && e2 is None && r is None
    }
}

/// What a key press does on the settings page.
pub open spec fn settings_key_done(
    k: KeyPress,
    s: GlobalSettings,
    c: nat,
    e: Option<SettingsEditState>,
    s2: GlobalSettings,
    c2: nat,
    e2: Option<SettingsEditState>,
    r: Option<Action>,
) -> bool {
    match e {
        Some(ed) => open_key_done(k, s, ed, s2, e2, r) && c2 == c,
        None => menu_key_done(k, s, c, s2, c2, e2, r),
    }
}

/// The log level after `l` (see `next_log_level`).
pub fn cycle_log_level(l: &str) -> (r: String)
    ensures
        r@ == next_log_level(l@),
{
    if str_eq(l, "warning") {
        lit("info")
    } else if str_eq(l, "info") {
        lit("debug")
    } else if str_eq(l, "debug") {
        lit("error")
    } else if str_eq(l, "error") {
        lit("warning")
    } else {
        lit("warning")
    }
}

fn text_or_empty(o: &Option<String>) -> (r: String)
    ensures
        r@ == or_empty(ot(*o)),
{
    match o {
        Some(s) => s.clone(),
        None => String::new(),
    }
}

/// A typed text as an optional setting: nothing when it is empty.
pub fn optional_of(v: String) -> (r: Option<String>)
    ensures
        ot(r) == optional_text(v@),
{
    if v.as_str().is_empty() { None } else { Some(v) }
}

/// Stores `v` into field `f` of the settings (see `stored`).
fn store(settings: &mut GlobalSettings, f: usize, v: String)
    ensures
        stored(*old(settings), *final(settings), f as nat, v@),
{
    if f == 0 {
        settings.xray_binary_path = v;
    } else if f == 1 {
        settings.config_path = v;
    } else if f == 3 {
        settings.server_public_ip = optional_of(v);
    } else if f == 4 {
        settings.state_dir = v;
    } else if f == 5 {
        settings.cf_email = optional_of(v);
    } else if f == 6 {
        settings.cf_token = optional_of(v);
    } else if f == 7 {
        settings.cf_zone_id = optional_of(v);
    }
}

fn handle_open(key: KeyPress, settings: &mut GlobalSettings, ed: SettingsEditState) -> (res: (Option<SettingsEditState>, Option<Action>))
    ensures
        open_key_done(key, *old(settings), ed, *final(settings), res.0, res.1),
{
    let mut ed = ed;
    let ghost ed0 = ed;
    if let Some(sub) = ed.cf_sub {
        if key.code == KeyInput::Esc {
            ed.cf_sub = None;
            return (Some(ed), None);
        }
        if key.code == KeyInput::Up || key.code == KeyInput::Char('k') {
            let mut s = sub;
            move_up(&mut s);
            ed.cf_sub = Some(s);
            return (Some(ed), None);
        }
        if key.code == KeyInput::Down || key.code == KeyInput::Char('j') {
            let mut s = sub;
            move_down(&mut s, 3);
            ed.cf_sub = Some(s);
            return (Some(ed), None);
        }
        if key.code == KeyInput::Enter {
            let val = if sub == 0 {
                text_or_empty(&settings.cf_email)
            } else if sub == 1 {
                text_or_empty(&settings.cf_token)
            } else {
                text_or_empty(&settings.cf_zone_id)
            };
            return (Some(SettingsEditState { field: sub, value: val, editing: true, cf_sub: Some(sub) }), None);
        }
        return (Some(ed), None);
    }
    if ed.editing {
        match key.code {
            KeyInput::Esc => (None, None),
            KeyInput::Enter => {
                store(settings, ed.field, ed.value);
                (None, Some(Action::UpdateSettings(settings.duplicate())))
            },
            KeyInput::Char(c) => {
                push_char(&mut ed.value, c);
                (Some(ed), None)
            },
            KeyInput::Backspace => {
                pop_last(&mut ed.value);
                (Some(ed), None)
            },
            _ => (Some(ed), None),
        }
    } else {
        (Some(ed), None)
    }
}

fn handle_menu(key: KeyPress, cursor: &mut usize, settings: &mut GlobalSettings) -> (res: (Option<SettingsEditState>, Option<Action>))
    ensures
        menu_key_done(key, *old(settings), *old(cursor) as nat, *final(settings), *final(cursor) as nat, res.0, res.1),
{
    match key.code {
        KeyInput::Up | KeyInput::Char('k') => {
            move_up(cursor);
            (None, None)
        },
        KeyInput::Down | KeyInput::Char('j') => {
            move_down(cursor, 7);
            (None, None)
        },
        KeyInput::Enter => {
            let c = *cursor;
            if c == 0 {
                (Some(SettingsEditState { field: 0, value: settings.xray_binary_path.clone(), editing: true, cf_sub: None }), None)
            } else if c == 1 {
                (Some(SettingsEditState { field: 1, value: settings.config_path.clone(), editing: true, cf_sub: None }), None)
            } else if c == 2 {
                settings.log_level = cycle_log_level(settings.log_level.as_str());
                (None, Some(Action::UpdateSettings(settings.duplicate())))
            } else if c == 3 {
                (Some(SettingsEditState { field: 3, value: text_or_empty(&settings.server_public_ip), editing: true, cf_sub: None }), None)
            } else if c == 4 {
                (Some(SettingsEditState { field: 4, value: settings.state_dir.clone(), editing: true, cf_sub: None }), None)
            } else if c == 5 {
                (Some(SettingsEditState { field: 5, value: String::new(), editing: false, cf_sub: Some(0) }), None)
            } else if c == 6 {
                (None, Some(Action::UpdateSettings(settings.duplicate())))
            } else {
                (None, None)
            }
        },
        _ => (None, None),
    }
}

/// What a key press does on the settings page (see `settings_key_done`).
pub fn handle_key(
    key: KeyPress,
    cursor: &mut usize,
    settings: &mut GlobalSettings,
    edit: &mut Option<SettingsEditState>,
) -> (r: Option<Action>)
    ensures
        settings_key_done(key, *old(settings), *old(cursor) as nat, *old(edit), *final(settings), *final(cursor) as nat, *final(edit), r),
{
    let current = edit.take();
    match current {
        Some(ed) => {
            let (e2, r) = handle_open(key, settings, ed);
            *edit = e2;
            r
        },
        None => {
            let (e2, r) = handle_menu(key, cursor, settings);
            *edit = e2;
            r
        },
    }
}

/// Cycling the log level four times comes back to any of the four levels.
pub proof fn lemma_log_level_cycle(l: Seq<char>)
    requires
        l == "warning"@ || l == "info"@ || l == "debug"@ || l == "error"@,
    ensures
        next_log_level(next_log_level(next_log_level(next_log_level(l)))) == l,
{
    reveal_strlit("warning");
    reveal_strlit("info");
    reveal_strlit("debug");
    reveal_strlit("error");
    let (w, i, d, e) = ("warning"@, "info"@, "debug"@, "error"@);
    assert(w[0] != i[0] && w[0] != d[0] && w[0] != e[0]);
    assert(i[0] != d[0] && i[0] != e[0] && d[0] != e[0]);
    assert(w != i && w != d && w != e && i != d && i != e && d != e);
}

} // verus!
