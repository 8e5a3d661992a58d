use vstd::prelude::*;

use crate::ui::app::{Action, PickerAction, Screen};
use crate::ui::keys::{KeyInput, KeyPress, cursor_down, cursor_up, is_down, is_up, move_down, move_up};
use crate::ui::wizard::{InboundWizardState, WizardStep, fields_match, template_fields_spec};

verus! {

/// A wizard as `InboundWizardState::new` makes it: a new inbound, at the
/// template step.
pub open spec fn fresh_wizard(w: InboundWizardState) -> bool {
    &&& w.current_step == WizardStep::Template
    &&& w.edit_index is None
    &&& fields_match(w.fields@, template_fields_spec())
    &&& w.focused == 0
    &&& w.selected_template == 0
}

/// The picker each inbound command opens: edit, delete, toggle, manage
/// users, copy a link.
pub open spec fn picker_for(c: nat) -> PickerAction {
    if c == 1 {
        PickerAction::EditConfig
    } else if c == 2 {
        PickerAction::DeleteConfig
    } else if c == 3 {
        PickerAction::ToggleConfig
    } else if c == 4 {
        PickerAction::ManageUsers
    } else {
        PickerAction::CopyLink
    }
}

/// What command `c` of the inbound list asks for when there are `n`
/// inbounds: a new wizard; a picker over the inbounds (only when there are
/// some); the subscription of all inbounds.
pub open spec fn inbound_command_done(c: nat, n: nat, r: Option<Action>) -> bool {
    if c == 0 {
        r matches Some(Action::PushScreen(Screen::InboundWizard(w))) && fresh_wizard(w)
    } else if 1 <= c <= 5 && n > 0 {
        r matches Some(Action::PushScreen(Screen::ConfigPicker { selected, action }))
            && selected == 0 && action == picker_for(c)
    } else if c == 6 {
        r matches Some(Action::ExportSubscription)
    } else {
        r is None
    }
}

fn execute_command(cmd: usize, n: usize) -> (r: Option<Action>)
    ensures
        inbound_command_done(cmd as nat, n as nat, r),
{
    if cmd == 0 {
        Some(Action::PushScreen(Screen::InboundWizard(InboundWizardState::new())))
    } else if 1 <= cmd && cmd <= 5 && n > 0 {
        let action = if cmd == 1 {
            PickerAction::EditConfig
        } else if cmd == 2 {
            PickerAction::DeleteConfig
        } else if cmd == 3 {
            PickerAction::ToggleConfig
        } else if cmd == 4 {
            PickerAction::ManageUsers
        } else {
            PickerAction::CopyLink
        };
        Some(Action::PushScreen(Screen::ConfigPicker { selected: 0, action }))
    } else if cmd == 6 {
        Some(Action::ExportSubscription)
    } else {
        None
    }
}

/// Up and down move the command cursor over the seven commands; Enter runs
/// the command under it, given `n` inbounds (see `inbound_command_done`).
pub open spec fn inbound_key_done(k: KeyPress, c: nat, n: nat, c2: nat, r: Option<Action>) -> bool {
    if is_up(k.code) {
        c2 == cursor_up(c) && r is None
    } else if is_down(k.code) {
        c2 == cursor_down(c, 7) && r is None
    } else if k.code == KeyInput::Enter {
        c2 == c && inbound_command_done(c, n, r)
    } else {
        c2 == c && r is None
    }
}

/// What a key press does on the inbound list (see `inbound_key_done`).
pub fn handle_key(key: KeyPress, cursor: &mut usize, n: usize) -> (r: Option<Action>)
    ensures
        inbound_key_done(key, *old(cursor) as nat, n as nat, *final(cursor) as nat, r),
{
    match key.code {
        KeyInput::Up | KeyInput::Char('k') => {
            move_up(cursor);
            None
        },
        KeyInput::Down | KeyInput::Char('j') => {
            move_down(cursor, 7);
            None
        },
        KeyInput::Enter => execute_command(*cursor, n),
        _ => None,
    }
}

} // verus!
