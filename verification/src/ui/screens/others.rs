use vstd::prelude::*;

use crate::ui::app::Action;
use crate::ui::keys::{KeyInput, KeyPress, cursor_down, cursor_up, is_down, is_up, move_down, move_up};

verus! {

/// What each system tool asks for: enable, disable or check BBR, update
/// the geo files, sync or check the clock.
pub open spec fn tools_command(c: nat) -> Option<Action> {
    if c == 0 {
        Some(Action::EnableBBR)
    } else if c == 1 {
        Some(Action::DisableBBR)
    } else if c == 2 {
        Some(Action::CheckBBR)
    } else if c == 3 {
        Some(Action::UpdateGeoFiles)
    } else if c == 4 {
        Some(Action::SyncNTP)
    } else if c == 5 {
        Some(Action::CheckNTP)
    } else {
        None
    }
}

/// Up and down move the command cursor over the six tools; Enter asks for
/// the tool under it.
pub open spec fn tools_key_done(k: KeyPress, c: nat, c2: nat, r: Option<Action>) -> bool {
    if is_up(k.code) {
        c2 == cursor_up(c) && r is None
    } else if is_down(k.code) {
        c2 == cursor_down(c, 6) && r is None
    } else if k.code == KeyInput::Enter {
        c2 == c && r == tools_command(c)
    } else {
        c2 == c && r is None
    }
}

/// What a key press does on the system tools screen (see `tools_key_done`).
pub fn handle_key(key: KeyPress, cursor: &mut usize) -> (r: Option<Action>)
    ensures
        tools_key_done(key, *old(cursor) as nat, *final(cursor) as nat, r),
{
    match key.code {
        KeyInput::Up | KeyInput::Char('k') => {
            move_up(cursor);
            None
        },
        KeyInput::Down | KeyInput::Char('j') => {
            move_down(cursor, 6);
            None
        },
        KeyInput::Enter => match *cursor {
            0 => Some(Action::EnableBBR),
            1 => Some(Action::DisableBBR),
            2 => Some(Action::CheckBBR),
            3 => Some(Action::UpdateGeoFiles),
            4 => Some(Action::SyncNTP),
            5 => Some(Action::CheckNTP),
            _ => None,
        },
        _ => None,
    }
}

} // verus!
