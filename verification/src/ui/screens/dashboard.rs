use vstd::prelude::*;

use crate::ui::app::Action;
use crate::ui::keys::{KeyInput, KeyPress, cursor_down, cursor_up, is_down, is_up, move_down, move_up};

verus! {

/// What each dashboard command asks for: install, configure systemd,
/// start, restart, stop, uninstall.
pub open spec fn dashboard_command(c: nat) -> Option<Action> {
    if c == 0 {
        Some(Action::InstallXray)
    } else if c == 1 {
        Some(Action::InstallSystemd)
    } else if c == 2 {
        Some(Action::StartXray)
    } else if c == 3 {
        Some(Action::RestartXray)
    } else if c == 4 {
        Some(Action::StopXray)
    } else if c == 5 {
        Some(Action::UninstallXray)
    } else {
        None
    }
}

/// Up and down move the command cursor over the six commands; Enter asks
/// for the command under it.
pub open spec fn dashboard_key_done(k: KeyPress, c: nat, c2: nat, r: Option<Action>) -> bool {
    if is_up(k.code) {
        c2 == cursor_up(c) && r is None
    } else if is_down(k.code) {
        c2 == cursor_down(c, 6) && r is None
    } else if k.code == KeyInput::Enter {
        c2 == c && r == dashboard_command(c)
    } else {
        c2 == c && r is None
    }
}

/// What a key press does on the dashboard (see `dashboard_key_done`).
pub fn handle_key(key: KeyPress, cursor: &mut usize) -> (r: Option<Action>)
    ensures
        dashboard_key_done(key, *old(cursor) as nat, *final(cursor) as nat, r),
{
    match key.code {
        KeyInput::Up | KeyInput::Char('k') => {
            move_up(cursor);
            None
        },
        KeyInput::Down | KeyInput::Char('j') => {
            move_down(cursor, 6);
            None
        },
        KeyInput::Enter => match *cursor {
            0 => Some(Action::InstallXray),
            1 => Some(Action::InstallSystemd),
            2 => Some(Action::StartXray),
            3 => Some(Action::RestartXray),
            4 => Some(Action::StopXray),
            5 => Some(Action::UninstallXray),
            _ => None,
        },
        _ => None,
    }
}

} // verus!
