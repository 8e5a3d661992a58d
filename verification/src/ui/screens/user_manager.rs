use vstd::prelude::*;

use crate::model::config::InboundConfig;
use crate::services::config_manager::ConfigEntry;
use crate::services::subscription::{SubscriptionService, share_link};
use crate::text::{cat, decimal, lit, push_decimal};
use crate::ui::app::{Action, ConfirmedAction, Screen};
use crate::ui::keys::{KeyInput, KeyPress, cursor_down, cursor_up, is_down, is_up, move_down, move_up};

verus! {

/// The users of inbound `idx`, none when there is no such inbound.
pub open spec fn user_total(inbounds: Seq<ConfigEntry>, idx: nat) -> nat {
    if idx < inbounds.len() { inbounds[idx as int].config.users() } else { 0 }
}

/// The question asked before deleting the user at `sel` (counted from 1).
pub open spec fn delete_user_prompt(sel: nat) -> Seq<char> {
    "Delete user #"@ + decimal(sel + 1) + "?"@
}

/// The address put in share links: the server's public IP, or a placeholder
/// to replace.
pub open spec fn link_address(ip: Option<String>) -> Seq<char> {
    match ip {
        Some(s) => s@,
        None => "your-server-ip"@,
    }
}

/// The address put in share links.
pub fn link_address_of(ip: &Option<String>) -> (r: String)
    ensures
        r@ == link_address(*ip),
{
    match ip {
        Some(s) => s.clone(),
        None => lit("your-server-ip"),
    }
}

/// What Enter does on the user manager of inbound `idx` with command `c`
/// and user `sel` selected: adding is announced as not there yet; deleting
/// asks for confirmation; copying a link shows the selected user's share
/// link (nothing when the protocol has none). The last two need a user.
pub open spec fn user_command_done(
    c: nat,
    inbounds: Seq<ConfigEntry>,
    idx: nat,
    sel: nat,
    ip: Option<String>,
    r: Option<Action>,
) -> bool {
    let count = user_total(inbounds, idx);
    if c == 0 {
        r matches Some(Action::ShowMessage(m)) && m@ == "Add User: coming"@
    } else if c == 1 && count > 0 {
        r matches Some(Action::PushScreen(Screen::ConfirmDialog { message, on_confirm }))
            && message@ == delete_user_prompt(sel)
            && on_confirm == (ConfirmedAction::DeleteUser { inbound_idx: idx as usize, user_idx: sel as usize })
    } else if c == 2 && count > 0 {
        match share_link(inbounds[idx as int].config, link_address(ip), sel as int) {
            Some(l) => r matches Some(Action::PushScreen(Screen::ShareExport { content })) && content@ == l,
            None => r is None,
        }
    } else {
        r is None
    }
}

/// Up and down move the command cursor over the three commands, left and
/// right the selected user; Enter runs the command (see
/// `user_command_done`).
pub open spec fn user_key_done(
    k: KeyPress,
    c: nat,
    sel: nat,
    inbounds: Seq<ConfigEntry>,
    idx: nat,
    ip: Option<String>,
    c2: nat,
    sel2: nat,
    r: Option<Action>,
) -> bool {
    if is_up(k.code) {
        c2 == cursor_up(c) && sel2 == sel && r is None
    } else if is_down(k.code) {
        c2 == cursor_down(c, 3) && sel2 == sel && r is None
    } else if k.code == KeyInput::Left {
        c2 == c && sel2 == cursor_up(sel) && r is None
    } else if k.code == KeyInput::Right {
        c2 == c && sel2 == cursor_down(sel, user_total(inbounds, idx)) && r is None
    } else if k.code == KeyInput::Enter {
        c2 == c && sel2 == sel && user_command_done(c, inbounds, idx, sel, ip, r)
    } else {
        c2 == c && sel2 == sel && r is None
    }
}

/// What a key press does on the user manager (see `user_key_done`).
pub fn handle_key(
    key: KeyPress,
    cursor: &mut usize,
    selected: &mut usize,
    inbounds: &Vec<ConfigEntry>,
    inbound_idx: usize,
    server_ip: &Option<String>,
) -> (r: Option<Action>)
    requires
        *old(selected) < usize::MAX,
    ensures
        user_key_done(key, *old(cursor) as nat, *old(selected) as nat, inbounds@, inbound_idx as nat, *server_ip,
            *final(cursor) as nat, *final(selected) as nat, r),
{
    let count = if inbound_idx < inbounds.len() { inbounds[inbound_idx].config.user_count() } else { 0 };
    match key.code {
        KeyInput::Up | KeyInput::Char('k') => {
            move_up(cursor);
            None
        },
        KeyInput::Down | KeyInput::Char('j') => {
            move_down(cursor, 3);
            None
        },
        KeyInput::Left => {
            move_up(selected);
            None
        },
        KeyInput::Right => {
            move_down(selected, count);
            None
        },
        KeyInput::Enter => {
            let c = *cursor;
            if c == 0 {
                Some(Action::ShowMessage(lit("Add User: coming")))
            } else if c == 1 && count > 0 {
                let mut message = lit("Delete user #");
                push_decimal(&mut message, (*selected as u64) + 1);
                let message = cat(message.as_str(), "?");
                Some(Action::PushScreen(Screen::ConfirmDialog {
                    message,
                    on_confirm: ConfirmedAction::DeleteUser { inbound_idx, user_idx: *selected },
                }))
            } else if c == 2 && count > 0 {
                let ip = link_address_of(server_ip);
                match SubscriptionService::generate_share_link(&inbounds[inbound_idx].config, ip.as_str(), *selected) {
                    Some(l) => Some(Action::PushScreen(Screen::ShareExport { content: l })),
                    None => None,
                }
            } else {
                None
            }
        },
        _ => None,
    }
}

} // verus!
