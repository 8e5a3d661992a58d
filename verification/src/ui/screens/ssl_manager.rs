use vstd::prelude::*;

use crate::model::settings::{GlobalSettings, copy_opt};
use crate::model::ssl::CertInfo;
use crate::text::{cat, lit, pop_last, push_char};
use crate::ui::app::{Action, ConfirmedAction, Screen};
use crate::ui::keys::{
    KeyInput, KeyPress, cursor_down, cursor_up, is_down, is_up, move_down, move_up, next_wrapping,
    prev_wrapping, wrap_next, wrap_prev,
};

verus! {

/// The form for issuing a certificate.
#[derive(Debug, Clone)]
pub struct SslEditState {
    pub domain: String,
    pub method_idx: usize,
    pub webroot: String,
    /// 0 the domain, 1 the validation method, 2 the web root.
    pub field: usize,
}

impl Default for SslEditState {
    fn default() -> (r: Self)
        ensures
            r.domain@ == Seq::<char>::empty(),
            r.method_idx == 0,
            r.webroot@ == Seq::<char>::empty(),
            r.field == 0,
    {
        SslEditState { domain: String::new(), method_idx: 0, webroot: String::new(), field: 0 }
    }
}

/// The validation method at position `i`: webroot, ALPN or DNS.
pub open spec fn method_name(i: nat) -> Seq<char> {
    if i == 0 {
        "webroot"@
    } else if i == 1 {
        "alpn"@
    } else {
        "dns"@
    }
}

/// The form holds these values.
pub open spec fn form_is(e: Option<SslEditState>, domain: Seq<char>, method: nat, webroot: Seq<char>, field: nat) -> bool {
    e matches Some(st) && st.domain@ == domain && st.method_idx == method && st.webroot@ == webroot && st.field == field
}

/// A text after a backspace.
pub open spec fn backspaced(v: Seq<char>) -> Seq<char> {
    if v.len() > 0 { v.drop_last() } else { v }
}

/// Keys while the issue form is open: Esc closes it; Tab and back-tab move
/// over its three fields; up and down on the method field cycle the
/// method; typing and backspace edit the domain or the web root; Enter
/// closes the form and asks to issue a certificate for the domain with the
/// method, the web root only for the webroot method, and the Cloudflare
/// credentials of the settings.
pub open spec fn form_key_done(
    k: KeyPress,
    st: SslEditState,
    s: GlobalSettings,
    e2: Option<SslEditState>,
    r: Option<Action>,
) -> bool {
    let (d, m, w, f) = (st.domain@, st.method_idx as nat, st.webroot@, st.field as nat);
    match k.code {
        KeyInput::Esc => e2 is None && r is None,
        KeyInput::Tab => form_is(e2, d, m, w, wrap_next(f, 3)) && r is None,
        KeyInput::BackTab => form_is(e2, d, m, w, wrap_prev(f, 3)) && r is None,
        KeyInput::Enter => {
            &&& e2 is None
            &&& r matches Some(Action::IssueCertWithMethod { domain, method, webroot, cf_email, cf_key })
            &&& domain@ == d
            &&& method@ == method_name(m)
            &&& (if m == 0 { webroot matches Some(wr) && wr@ == w } else { webroot is None })
            &&& cf_email == s.cf_email
            &&& cf_key == s.cf_token
        },
        KeyInput::Up => r is None && if f == 1 { form_is(e2, d, (m + 2) % 3, w, f) } else { e2 == Some(st) },
        KeyInput::Down => r is None && if f == 1 { form_is(e2, d, (m + 1) % 3, w, f) } else { e2 == Some(st) },
        KeyInput::Char(c) => r is None && if f == 0 {
            form_is(e2, d.push(c), m, w, f)
        } else if f == 2 {
            form_is(e2, d, m, w.push(c), f)
        } else {
            e2 == Some(st)
        },
        KeyInput::Backspace => r is None && if f == 0 {
            form_is(e2, backspaced(d), m, w, f)
        } else if f == 2 {
            form_is(e2, d, m, backspaced(w), f)
        } else {
            e2 == Some(st)
        },
        _ => e2 == Some(st) && r is None,
    }
}

/// The certificates are the same, except that `i` may have its automatic
/// renewal switched.
pub open spec fn renewal_switched(certs: Seq<CertInfo>, certs2: Seq<CertInfo>, i: int) -> bool {
    &&& certs2.len() == certs.len()
    &&& certs2 == certs.update(i, CertInfo { auto_renew: !certs[i].auto_renew, ..certs[i] })
}

/// Keys on the certificate list: up and down move over the four commands,
/// left and right over the certificates. Enter runs the command: issuing
/// opens the form (or says that acme.sh is missing); renewing asks to renew
/// the selected certificate; deleting asks for confirmation; the last one
/// switches the selected certificate's automatic renewal and says how it
/// is now. The last three need a certificate.
pub open spec fn list_key_done(
    k: KeyPress,
    c: nat,
    certs: Seq<CertInfo>,
    sel: nat,
    acme_installed: bool,
    c2: nat,
    certs2: Seq<CertInfo>,
    sel2: nat,
    e2: Option<SslEditState>,
    r: Option<Action>,
) -> bool {
    let len = certs.len();
    if is_up(k.code) {
        c2 == cursor_up(c) && certs2 == certs && sel2 == sel && e2 is None && r is None
    } else if is_down(k.code) {
        c2 == cursor_down(c, 4) && certs2 == certs && sel2 == sel && e2 is None && r is None
    } else if k.code == KeyInput::Left {
        c2 == c && certs2 == certs && sel2 == cursor_up(sel) && e2 is None && r is None
    } else if k.code == KeyInput::Right {
        c2 == c && certs2 == certs && sel2 == cursor_down(sel, len) && e2 is None && r is None
    } else if k.code == KeyInput::Enter {
        &&& c2 == c && sel2 == sel
        &&& if c == 0 {
            &&& certs2 == certs
            &&& if acme_installed {
                form_is(e2, Seq::<char>::empty(), 0, "/var/www/html"@, 0) && r is None
            } else {
                &&& e2 is None
                &&& r matches Some(Action::ShowMessage(m)) && m@ == "acme.sh not found. Install: curl https://get.acme.sh | sh"@
            }
        } else if c == 1 && len > 0 {
            &&& certs2 == certs && e2 is None
            &&& r matches Some(Action::RenewCert(d)) && d@ == certs[sel as int].domain@
        } else if c == 2 && len > 0 {
            &&& certs2 == certs && e2 is None
            &&& r matches Some(Action::PushScreen(Screen::ConfirmDialog { message, on_confirm }))
            &&& message@ == "Delete "@ + certs[sel as int].domain@ + " cert?"@
            &&& on_confirm == ConfirmedAction::DeleteCert(sel as usize)
        } else if c == 3 && len > 0 {
            &&& renewal_switched(certs, certs2, sel as int)
            &&& e2 is None
            &&& r matches Some(Action::ShowMessage(m))
            &&& m@ == (if certs2[sel as int].auto_renew { "Auto:ON"@ } else { "Auto:OFF"@ })
        } else {
            certs2 == certs && e2 is None && r is None
        }
    } else {
        c2 == c && certs2 == certs && sel2 == sel && e2 is None && r is None
    }
}

/// The selection is on a certificate, or on the first place when there is
/// none; the method of an open form is one of the three.
pub open spec fn ssl_state_valid(certs: Seq<CertInfo>, sel: nat, e: Option<SslEditState>) -> bool {
    &&& sel == 0 || sel < certs.len()
    &&& e matches Some(st) ==> st.method_idx < 3
}

fn handle_form(key: KeyPress, st: SslEditState, settings: &GlobalSettings) -> (res: (Option<SslEditState>, Option<Action>))
    requires
        st.method_idx < 3,
    ensures
        form_key_done(key, st, *settings, res.0, res.1),
        res.0 matches Some(s2) ==> s2.method_idx < 3,
{
    let mut st = st;
    match key.code {
        KeyInput::Esc => (None, None),
        KeyInput::Tab => {
            st.field = next_wrapping(st.field, 3);
            (Some(st), None)
        },
        KeyInput::BackTab => {
            st.field = prev_wrapping(st.field, 3);
            (Some(st), None)
        },
        KeyInput::Enter => {
            let method = if st.method_idx == 0 {
                lit("webroot")
            } else if st.method_idx == 1 {
                lit("alpn")
            } else {
                lit("dns")
            };
            let webroot = if st.method_idx == 0 { Some(st.webroot) } else { None };
            (None, Some(Action::IssueCertWithMethod {
                domain: st.domain,
                method,
                webroot,
                cf_email: copy_opt(&settings.cf_email),
                cf_key: copy_opt(&settings.cf_token),
            }))
        },
        KeyInput::Up => {
            if st.field == 1 {
                st.method_idx = (st.method_idx + 2) % 3;
            }
            (Some(st), None)
        },
        KeyInput::Down => {
            if st.field == 1 {
                st.method_idx = (st.method_idx + 1) % 3;
            }
            (Some(st), None)
        },
        KeyInput::Char(c) => {
            if st.field == 0 {
                push_char(&mut st.domain, c);
            } else if st.field == 2 {
                push_char(&mut st.webroot, c);
            }
            (Some(st), None)
        },
        KeyInput::Backspace => {
            if st.field == 0 {
                pop_last(&mut st.domain);
            } else if st.field == 2 {
                pop_last(&mut st.webroot);
            }
            (Some(st), None)
        },
        _ => (Some(st), None),
    }
}

fn handle_list(
    key: KeyPress,
    cursor: &mut usize,
    certs: &mut Vec<CertInfo>,
    selected: &mut usize,
    acme_installed: bool,
) -> (res: (Option<SslEditState>, Option<Action>))
    requires
        *old(selected) == 0 || *old(selected) < old(certs)@.len(),
    ensures
        list_key_done(key, *old(cursor) as nat, old(certs)@, *old(selected) as nat, acme_installed,
            *final(cursor) as nat, final(certs)@, *final(selected) as nat, res.0, res.1),
{
    let len = certs.len();
    match key.code {
        KeyInput::Up | KeyInput::Char('k') => {
            move_up(cursor);
            (None, None)
        },
        KeyInput::Down | KeyInput::Char('j') => {
            move_down(cursor, 4);
            (None, None)
        },
        KeyInput::Left => {
            move_up(selected);
            (None, None)
        },
        KeyInput::Right => {
            move_down(selected, len);
            (None, None)
        },
        KeyInput::Enter => {
            let c = *cursor;
            let i = *selected;
            if c == 0 {
                if !acme_installed {
                    return (None, Some(Action::ShowMessage(lit("acme.sh not found. Install: curl https://get.acme.sh | sh"))));
                }
                (Some(SslEditState { domain: String::new(), method_idx: 0, webroot: lit("/var/www/html"), field: 0 }), None)
            } else if c == 1 && len > 0 {
                (None, Some(Action::RenewCert(certs[i].domain.clone())))
            } else if c == 2 && len > 0 {
                let message = cat("Delete ", certs[i].domain.as_str());
                let message = cat(message.as_str(), " cert?");
                (None, Some(Action::PushScreen(Screen::ConfirmDialog { message, on_confirm: ConfirmedAction::DeleteCert(i) })))
            } else if c == 3 && len > 0 {
                let mut cert = certs.remove(i);
                cert.auto_renew = !cert.auto_renew;
                let on = cert.auto_renew;
                certs.insert(i, cert);
                assert(certs@ =~= old(certs)@.update(i as int, CertInfo { auto_renew: !old(certs)@[i as int].auto_renew, ..old(certs)@[i as int] }));
                (None, Some(Action::ShowMessage(if on { lit("Auto:ON") } else { lit("Auto:OFF") })))
            } else {
                (None, None)
            }
        },
        _ => (None, None),
    }
}

/// What a key press does on the certificate screen: the form's keys while
/// it is open (see `form_key_done`), the list's otherwise (see
/// `list_key_done`). `acme_installed` says whether acme.sh can be found.
pub fn handle_key(
    key: KeyPress,
    cursor: &mut usize,
    certs: &mut Vec<CertInfo>,
    selected: &mut usize,
    edit: &mut Option<SslEditState>,
    settings: &GlobalSettings,
    acme_installed: bool,
) -> (r: Option<Action>)
    requires
        ssl_state_valid(old(certs)@, *old(selected) as nat, *old(edit)),
    ensures
        match *old(edit) {
            Some(st) => form_key_done(key, st, *settings, *final(edit), r) && *final(cursor) == *old(cursor)
                && final(certs)@ == old(certs)@ && *final(selected) == *old(selected),
            None => list_key_done(key, *old(cursor) as nat, old(certs)@, *old(selected) as nat, acme_installed,
                *final(cursor) as nat, final(certs)@, *final(selected) as nat, *final(edit), r),
        },
        ssl_state_valid(final(certs)@, *final(selected) as nat, *final(edit)),
{
    match edit.take() {
        Some(st) => {
            let (e2, r) = handle_form(key, st, settings);
            *edit = e2;
            r
        },
        None => {
            let (e2, r) = handle_list(key, cursor, certs, selected, acme_installed);
            *edit = e2;
            r
        },
    }
}

} // verus!
