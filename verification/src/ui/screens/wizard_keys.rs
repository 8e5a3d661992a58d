use vstd::prelude::*;

use crate::codec::{fresh_uuid, new_uuid_v4};
use crate::text::{lit, pop_last, push_char, str_eq};
use crate::ui::app::{Action, InputMode};
use crate::ui::builder::{apply_template_view, built_from, is_password_text};
use crate::ui::keys::{
    KeyInput, KeyPress, is_down, is_up, next_wrapping, prev_wrapping, wrap_next, wrap_prev,
};
use crate::ui::templates::{InboundTemplate, template_order};
use crate::ui::wizard::{
    InboundWizardState, WizardField, WizardFieldType, WizardStep, advance_from, any_open, closed,
    next_step_done, prev_step_done,
};

verus! {

/// The wizard is the same apart from its fields and its focus.
pub open spec fn same_but_fields(pre: InboundWizardState, post: InboundWizardState) -> bool {
    &&& post.current_step == pre.current_step
    &&& post.edit_index == pre.edit_index
    &&& post.builder == pre.builder
    &&& post.auto_restart == pre.auto_restart
    &&& post.json_preview == pre.json_preview
    &&& post.selected_template == pre.selected_template
}

/// Nothing of the wizard changed.
pub open spec fn unchanged(pre: InboundWizardState, post: InboundWizardState) -> bool {
    &&& same_but_fields(pre, post)
    &&& post.fields@ == pre.fields@
    &&& post.focused == pre.focused
}

/// Only the focus moved, to `f`.
pub open spec fn focus_moved(pre: InboundWizardState, post: InboundWizardState, f: nat) -> bool {
    &&& same_but_fields(pre, post)
    &&& post.fields@ == pre.fields@
    &&& post.focused == f
}

/// The focus is on a field.
pub open spec fn has_focused(w: InboundWizardState) -> bool {
    w.focused < w.fields@.len()
}

/// The focused field.
pub open spec fn focused_field(w: InboundWizardState) -> WizardField {
    w.fields@[w.focused as int]
}

/// The focus is on a field of kind `k`.
pub open spec fn focused_is(w: InboundWizardState, k: WizardFieldType) -> bool {
    has_focused(w) && focused_field(w).field_type == k
}

/// An open dropdown.
pub open spec fn open_dropdown(f: WizardField) -> bool {
    f.is_open && f.field_type == WizardFieldType::Dropdown
}

/// Only the focused field changed, to `post`'s field there; the focus stays.
pub open spec fn focused_changed(pre: InboundWizardState, post: InboundWizardState) -> bool {
    &&& same_but_fields(pre, post)
    &&& post.focused == pre.focused
    &&& has_focused(pre)
    &&& post.fields@ == pre.fields@.update(pre.focused as int, post.fields@[pre.focused as int])
}

/// `g` is `f` with only its value changed, to `v`.
pub open spec fn value_set(f: WizardField, g: WizardField, v: Seq<char>) -> bool {
    &&& g.label == f.label
    &&& g.field_type == f.field_type
    &&& g.options == f.options
    &&& g.selected_option == f.selected_option
    &&& g.is_open == f.is_open
    &&& g.value@ == v
}

/// `g` is `f` opened or closed.
pub open spec fn open_flipped(f: WizardField, g: WizardField) -> bool {
    &&& g.label == f.label
    &&& g.field_type == f.field_type
    &&& g.options == f.options
    &&& g.selected_option == f.selected_option
    &&& g.value == f.value
    &&& g.is_open == !f.is_open
}

/// The option a dropdown's selection moves to: one down or up, stopping at
/// the ends.
pub open spec fn moved_option(f: WizardField, down: bool) -> nat {
    if down {
        if f.selected_option + 1 < f.options@.len() { (f.selected_option + 1) as nat } else { f.selected_option as nat }
    } else {
        if f.selected_option > 0 { (f.selected_option - 1) as nat } else { f.selected_option as nat }
    }
}

/// `g` is the dropdown `f` with its selection moved; its value is the
/// option selected (empty when there is none).
pub open spec fn dropdown_moved(f: WizardField, g: WizardField, down: bool) -> bool {
    let k = moved_option(f, down);
    &&& g.label == f.label
    &&& g.field_type == f.field_type
    &&& g.options == f.options
    &&& g.is_open == f.is_open
    &&& g.selected_option == k
    &&& g.value@ == if k < f.options@.len() { f.options@[k as int]@ } else { Seq::<char>::empty() }
}

/// Up (`down` false) or down: in an open dropdown the selection moves;
/// elsewhere nothing happens.
pub open spec fn nav_done(pre: InboundWizardState, post: InboundWizardState, down: bool) -> bool {
    if has_focused(pre) && open_dropdown(focused_field(pre)) {
        &&& focused_changed(pre, post)
        &&& dropdown_moved(focused_field(pre), focused_field(post), down)
    } else {
        unchanged(pre, post)
    }
}

/// Enter: a dropdown opens or closes (opening it starts selecting), a
/// toggle flips; otherwise the confirm step asks to save the built inbound
/// (as an update when editing) and any other step moves on.
pub open spec fn enter_done(
    pre: InboundWizardState,
    m: InputMode,
    post: InboundWizardState,
    m2: InputMode,
    r: Option<Action>,
) -> bool {
    if focused_is(pre, WizardFieldType::Dropdown) {
        &&& focused_changed(pre, post)
        &&& open_flipped(focused_field(pre), focused_field(post))
        &&& m2 == (if focused_field(post).is_open { InputMode::Selecting } else { m })
        &&& r is None
    } else if focused_is(pre, WizardFieldType::Toggle) {
        &&& focused_changed(pre, post)
        &&& value_set(
            focused_field(pre),
            focused_field(post),
            if focused_field(pre).value@ == "true"@ { "false"@ } else { "true"@ },
        )
        &&& m2 == m
        &&& r is None
    } else if pre.current_step == WizardStep::Confirm {
        &&& unchanged(pre, post)
        &&& m2 == m
        &&& match pre.edit_index {
            Some(idx) => r matches Some(Action::UpdateInbound(i, c)) && i == idx && built_from(c, pre.builder@),
            None => r matches Some(Action::SaveInbound(c)) && built_from(c, pre.builder@),
        }
    } else {
        &&& next_step_done(pre, post)
        &&& m2 == m
        &&& r is None
    }
}

/// Every field of `pre` closed, nothing else changed.
pub open spec fn all_closed(pre: InboundWizardState, post: InboundWizardState) -> bool {
    &&& same_but_fields(pre, post)
    &&& post.focused == pre.focused
    &&& post.fields@.len() == pre.fields@.len()
    &&& forall|i: int| 0 <= i < pre.fields@.len() ==> #[trigger] post.fields@[i] == closed(pre.fields@[i])
}

/// Esc: open dropdowns close (back to normal input); otherwise the basic
/// step leaves the wizard and any later step goes back one.
pub open spec fn esc_done(
    pre: InboundWizardState,
    m: InputMode,
    post: InboundWizardState,
    m2: InputMode,
    r: Option<Action>,
) -> bool {
    if any_open(pre.fields@) {
        &&& all_closed(pre, post)
        &&& m2 == InputMode::Normal
        &&& r is None
    } else if pre.current_step == WizardStep::Basic {
        &&& unchanged(pre, post)
        &&& m2 == m
        &&& r matches Some(Action::PopScreen)
    } else {
        &&& prev_step_done(pre, post)
        &&& m2 == m
        &&& r is None
    }
}

/// `i` is the first field labelled `l`.
pub open spec fn first_labelled(fs: Seq<WizardField>, l: Seq<char>, i: int) -> bool {
    &&& 0 <= i < fs.len()
    &&& fs[i].label@ == l
    &&& forall|j: int| 0 <= j < i ==> (#[trigger] fs[j]).label@ != l
}

/// Ctrl-G: the first field labelled `UUID` gets a fresh UUID (a value the
/// UUID generator chose); without such a field nothing changes.
pub open spec fn uuid_filled(pre: InboundWizardState, post: InboundWizardState) -> bool {
    if exists|i: int| first_labelled(pre.fields@, "UUID"@, i) {
        exists|i: int| #[trigger] first_labelled(pre.fields@, "UUID"@, i) && {
            &&& same_but_fields(pre, post)
            &&& post.focused == pre.focused
            &&& post.fields@ == pre.fields@.update(i, post.fields@[i])
            &&& value_set(pre.fields@[i], post.fields@[i], post.fields@[i].value@)
            &&& fresh_uuid(post.fields@[i].value@)
        }
    } else {
        unchanged(pre, post)
    }
}

/// A typed character goes at the end of a focused text field (and input
/// switches to editing); elsewhere it is ignored.
pub open spec fn typed_done(
    pre: InboundWizardState,
    m: InputMode,
    post: InboundWizardState,
    m2: InputMode,
    c: char,
) -> bool {
    if focused_is(pre, WizardFieldType::TextInput) {
        &&& focused_changed(pre, post)
        &&& value_set(focused_field(pre), focused_field(post), focused_field(pre).value@.push(c))
        &&& m2 == InputMode::Editing
    } else {
        &&& unchanged(pre, post)
        &&& m2 == m
    }
}

/// Backspace removes the last character of a focused text field.
pub open spec fn erased_done(pre: InboundWizardState, post: InboundWizardState) -> bool {
    if focused_is(pre, WizardFieldType::TextInput) {
        let v = focused_field(pre).value@;
        &&& focused_changed(pre, post)
        &&& value_set(focused_field(pre), focused_field(post), if v.len() > 0 { v.drop_last() } else { v })
    } else {
        unchanged(pre, post)
    }
}

/// Keys on the template step: up and down move through the templates
/// (stopping at the ends), Enter fills the builder from the chosen template
/// and moves on, Esc leaves the wizard.
pub open spec fn template_key_done(
    k: KeyPress,
    pre: InboundWizardState,
    post: InboundWizardState,
    r: Option<Action>,
) -> bool {
    if is_up(k.code) {
        &&& r is None
        &&& if pre.focused > 0 {
            &&& post.focused == pre.focused - 1
            &&& post.selected_template == pre.focused - 1
            &&& post.fields@ == pre.fields@
            &&& post.current_step == pre.current_step
            &&& post.edit_index == pre.edit_index
            &&& post.builder == pre.builder
            &&& post.auto_restart == pre.auto_restart
            &&& post.json_preview == pre.json_preview
        } else {
            unchanged(pre, post)
        }
    } else if is_down(k.code) {
        &&& r is None
        &&& if pre.focused + 1 < template_order().len() {
            &&& post.focused == pre.focused + 1
            &&& post.selected_template == pre.focused + 1
            &&& post.fields@ == pre.fields@
            &&& post.current_step == pre.current_step
            &&& post.edit_index == pre.edit_index
            &&& post.builder == pre.builder
            &&& post.auto_restart == pre.auto_restart
            &&& post.json_preview == pre.json_preview
        } else {
            unchanged(pre, post)
        }
    } else if k.code == KeyInput::Enter {
        &&& r is None
        &&& template_taken(pre, post)
    } else if k.code == KeyInput::Esc {
        &&& unchanged(pre, post)
        &&& r matches Some(Action::PopScreen)
    } else {
        &&& unchanged(pre, post)
        &&& r is None
    }
}

/// What a key press does to the wizard and the input mode, and what it asks
/// of the application.
pub open spec fn wizard_key_done(
    k: KeyPress,
    pre: InboundWizardState,
    m: InputMode,
    post: InboundWizardState,
    m2: InputMode,
    r: Option<Action>,
) -> bool {
    if pre.current_step == WizardStep::Template {
        template_key_done(k, pre, post, r) && m2 == m
    } else {
        match k.code {
            KeyInput::Tab => focus_moved(pre, post, wrap_next(pre.focused as nat, pre.fields@.len()))
                && m2 == m && r is None,
            KeyInput::BackTab => focus_moved(pre, post, wrap_prev(pre.focused as nat, pre.fields@.len()))
                && m2 == m && r is None,
            KeyInput::Up => nav_done(pre, post, false) && m2 == m && r is None,
            KeyInput::Down => nav_done(pre, post, true) && m2 == m && r is None,
            KeyInput::Enter => enter_done(pre, m, post, m2, r),
            KeyInput::Esc => esc_done(pre, m, post, m2, r),
            KeyInput::Right => if k.plain() {
                next_step_done(pre, post) && m2 == m && r is None
            } else {
                unchanged(pre, post) && m2 == m && r is None
            },
            KeyInput::Left => if k.plain() {
                prev_step_done(pre, post) && m2 == m && r is None
            } else {
                unchanged(pre, post) && m2 == m && r is None
            },
            KeyInput::Char(c) => if c == 'g' && k.ctrl {
                uuid_filled(pre, post) && m2 == m && r is None
            } else {
                typed_done(pre, m, post, m2, c) && r is None
            },
            KeyInput::Backspace => erased_done(pre, post) && m2 == m && r is None,
            _ => unchanged(pre, post) && m2 == m && r is None,
        }
    }
}

/// Says whether the focus is on a field of kind `k`.
fn focus_kind(wiz: &InboundWizardState, k: WizardFieldType) -> (r: bool)
    ensures
        r == focused_is(*wiz, k),
{
    wiz.focused < wiz.fields.len() && wiz.fields[wiz.focused].field_type == k
}

/// Moves the selection of the focused dropdown.
fn dropdown_nav(wiz: &mut InboundWizardState, down: bool)
    requires
        has_focused(*old(wiz)),
        open_dropdown(focused_field(*old(wiz))),
    ensures
        focused_changed(*old(wiz), *final(wiz)),
        dropdown_moved(focused_field(*old(wiz)), focused_field(*final(wiz)), down),
{
    let i = wiz.focused;
    let mut f = wiz.fields.remove(i);
    let ghost f0 = f;
    if down {
        if f.selected_option < f.options.len() && f.selected_option + 1 < f.options.len() {
            f.selected_option = f.selected_option + 1;
        }
    } else if f.selected_option > 0 {
        f.selected_option = f.selected_option - 1;
    }
    if f.selected_option < f.options.len() {
        f.value = f.options[f.selected_option].clone();
    } else {
        f.value = String::new();
    }
    assert(dropdown_moved(f0, f, down));
    wiz.fields.insert(i, f);
    assert(wiz.fields@ =~= old(wiz).fields@.update(i as int, f));
}

/// Up or down outside the template step.
fn navigate(wiz: &mut InboundWizardState, down: bool)
    ensures
        nav_done(*old(wiz), *final(wiz), down),
{
    if wiz.focused < wiz.fields.len() && wiz.fields[wiz.focused].is_open
        && wiz.fields[wiz.focused].field_type == WizardFieldType::Dropdown {
        dropdown_nav(wiz, down);
    }
}

/// Enter outside the template step.
fn handle_enter(mode: &mut InputMode, wiz: &mut InboundWizardState) -> (r: Option<Action>)
    ensures
        enter_done(*old(wiz), *old(mode), *final(wiz), *final(mode), r),
{
    if wiz.focused < wiz.fields.len() {
        let i = wiz.focused;
        if wiz.fields[i].field_type == WizardFieldType::Dropdown {
            let mut f = wiz.fields.remove(i);
            f.is_open = !f.is_open;
            let now_open = f.is_open;
            wiz.fields.insert(i, f);
            assert(wiz.fields@ =~= old(wiz).fields@.update(i as int, f));
            if now_open {
                *mode = InputMode::Selecting;
            }
            return None;
        }
        if wiz.fields[i].field_type == WizardFieldType::Toggle {
            let mut f = wiz.fields.remove(i);
            let ghost f0 = f;
            if str_eq(f.value.as_str(), "true") {
                f.value = lit("false");
            } else {
                f.value = lit("true");
            }
            assert(value_set(f0, f, if f0.value@ == "true"@ { "false"@ } else { "true"@ }));
            wiz.fields.insert(i, f);
            assert(wiz.fields@ =~= old(wiz).fields@.update(i as int, f));
            return None;
        }
    }
    if wiz.current_step == WizardStep::Confirm {
        let config = wiz.builder.build();
        return match wiz.edit_index {
            Some(idx) => Some(Action::UpdateInbound(idx, config)),
            None => Some(Action::SaveInbound(config)),
        };
    }
    wiz.next_step();
    None
}

/// The first field labelled `l`, if there is one.
fn find_label(fields: &Vec<WizardField>, l: &str) -> (r: Option<usize>)
    ensures
        match r {
            Some(i) => first_labelled(fields@, l@, i as int),
            None => forall|j: int| 0 <= j < fields@.len() ==> (#[trigger] fields@[j]).label@ != l@,
        },
{
    let mut i: usize = 0;
    while i < fields.len()
        invariant
            i <= fields@.len(),
            forall|j: int| 0 <= j < i ==> (#[trigger] fields@[j]).label@ != l@,
        decreases fields@.len() - i,
    {
        if str_eq(fields[i].label.as_str(), l) {
            return Some(i);
        }
        i += 1;
    }
    None
}

/// Gives the first field labelled `UUID` a fresh UUID.
fn fill_uuid(wiz: &mut InboundWizardState)
    ensures
        uuid_filled(*old(wiz), *final(wiz)),
{
    match find_label(&wiz.fields, "UUID") {
        Some(i) => {
            let mut f = wiz.fields.remove(i);
            let ghost f0 = f;
            f.value = new_uuid_v4();
            assert(value_set(f0, f, f.value@));
            wiz.fields.insert(i, f);
            assert(wiz.fields@ =~= old(wiz).fields@.update(i as int, f));
            assert(wiz.fields@[i as int] == f);
            assert(first_labelled(old(wiz).fields@, "UUID"@, i as int));
        },
        None => {
            assert forall|i: int| !first_labelled(old(wiz).fields@, "UUID"@, i) by {
                if 0 <= i < old(wiz).fields@.len() {
                    assert(old(wiz).fields@[i].label@ != "UUID"@);
                }
            }
        },
    }
}

/// Types `c` into the focused text field.
fn type_char(mode: &mut InputMode, wiz: &mut InboundWizardState, c: char)
    ensures
        typed_done(*old(wiz), *old(mode), *final(wiz), *final(mode), c),
{
    if focus_kind(wiz, WizardFieldType::TextInput) {
        let i = wiz.focused;
        let mut f = wiz.fields.remove(i);
        let ghost f0 = f;
        push_char(&mut f.value, c);
        assert(value_set(f0, f, f0.value@.push(c)));
        wiz.fields.insert(i, f);
        assert(wiz.fields@ =~= old(wiz).fields@.update(i as int, f));
        *mode = InputMode::Editing;
    }
}

/// Removes the last character of the focused text field.
fn erase_char(wiz: &mut InboundWizardState)
    ensures
        erased_done(*old(wiz), *final(wiz)),
{
    if focus_kind(wiz, WizardFieldType::TextInput) {
        let i = wiz.focused;
        let mut f = wiz.fields.remove(i);
        let ghost f0 = f;
        pop_last(&mut f.value);
        assert(value_set(f0, f, if f0.value@.len() > 0 { f0.value@.drop_last() } else { f0.value@ }));
        wiz.fields.insert(i, f);
        assert(wiz.fields@ =~= old(wiz).fields@.update(i as int, f));
    }
}

/// The spec of Enter on the template step.
pub open spec fn template_taken(pre: InboundWizardState, post: InboundWizardState) -> bool {
    if pre.selected_template < template_order().len() {
        exists|u: Seq<char>, p: Seq<char>|
            #![trigger apply_template_view(pre.builder@, template_order()[pre.selected_template as int], u, p)]
            fresh_uuid(u) && is_password_text(p) && advance_from(
                apply_template_view(pre.builder@, template_order()[pre.selected_template as int], u, p),
                pre,
                post,
            )
    } else {
        next_step_done(pre, post)
    }
}

/// Fills the builder from the chosen template and moves on.
fn take_template(wiz: &mut InboundWizardState, all: &Vec<InboundTemplate>)
    requires
        old(wiz).current_step == WizardStep::Template,
        all@ == template_order(),
    ensures
        template_taken(*old(wiz), *final(wiz)),
{
    if wiz.selected_template < all.len() {
        let t = all[wiz.selected_template];
        let ghost b0 = wiz.builder@;
        wiz.builder.apply_template(&t);
        let ghost mid = *wiz;
        let ghost (u, p) = choose|u: Seq<char>, p: Seq<char>|
            fresh_uuid(u) && is_password_text(p) && mid.builder@ == apply_template_view(b0, t, u, p);
        wiz.next_step();
        assert(advance_from(apply_template_view(b0, t, u, p), *old(wiz), *wiz));
    } else {
        wiz.next_step();
    }
}

/// Keys on the template step.
fn handle_template_step(key: KeyPress, wiz: &mut InboundWizardState) -> (r: Option<Action>)
    requires
        old(wiz).current_step == WizardStep::Template,
    ensures
        template_key_done(key, *old(wiz), *final(wiz), r),
{
    let all = InboundTemplate::offered();
    match key.code {
        KeyInput::Up | KeyInput::Char('k') => {
            if wiz.focused > 0 {
                wiz.focused = wiz.focused - 1;
                wiz.selected_template = wiz.focused;
            }
            None
        },
        KeyInput::Down | KeyInput::Char('j') => {
            let max = all.len() - 1;
            if wiz.focused < max {
                wiz.focused = wiz.focused + 1;
                wiz.selected_template = wiz.focused;
            }
            None
        },
        KeyInput::Enter => {
            take_template(wiz, &all);
            None
        },
        KeyInput::Esc => Some(Action::PopScreen),
        _ => None,
    }
}

/// What a key press does in the inbound wizard (see `wizard_key_done`).
pub fn handle_key(key: KeyPress, mode: &mut InputMode, wiz: &mut InboundWizardState) -> (r: Option<Action>)
    ensures
        wizard_key_done(key, *old(wiz), *old(mode), *final(wiz), *final(mode), r),
{
    if wiz.current_step == WizardStep::Template {
        return handle_template_step(key, wiz);
    }
    match key.code {
        KeyInput::Tab => {
            wiz.focused = next_wrapping(wiz.focused, wiz.fields.len());
            None
        },
        KeyInput::BackTab => {
            wiz.focused = prev_wrapping(wiz.focused, wiz.fields.len());
            None
        },
        KeyInput::Up => {
            navigate(wiz, false);
            None
        },
        KeyInput::Down => {
            navigate(wiz, true);
            None
        },
        KeyInput::Enter => handle_enter(mode, wiz),
        KeyInput::Esc => {
            if wiz.close_dropdowns() {
                *mode = InputMode::Normal;
                return None;
            }
            if wiz.current_step == WizardStep::Basic {
                assert(wiz.fields@ =~= old(wiz).fields@);
                return Some(Action::PopScreen);
            }
            assert(wiz.fields@ =~= old(wiz).fields@);
            wiz.prev_step();
            None
        },
        KeyInput::Right => {
            if key.no_modifiers() {
                wiz.next_step();
            }
            None
        },
        KeyInput::Left => {
            if key.no_modifiers() {
                wiz.prev_step();
            }
            None
        },
        KeyInput::Char(c) => {
            if c == 'g' && key.ctrl {
                fill_uuid(wiz);
                None
            } else {
                type_char(mode, wiz, c);
                None
            }
        },
        KeyInput::Backspace => {
            erase_char(wiz);
            None
        },
        _ => None,
    }
}

/// Tab and then back-tab bring the focus back to the field it was on, with
/// nothing else changed.
pub proof fn lemma_tab_then_backtab(
    k1: KeyPress,
    k2: KeyPress,
    w0: InboundWizardState,
    m0: InputMode,
    w1: InboundWizardState,
    m1: InputMode,
    r1: Option<Action>,
    w2: InboundWizardState,
    m2: InputMode,
    r2: Option<Action>,
)
    requires
        k1.code == KeyInput::Tab,
        k2.code == KeyInput::BackTab,
        w0.current_step != WizardStep::Template,
        w0.focused < w0.fields@.len(),
        wizard_key_done(k1, w0, m0, w1, m1, r1),
        wizard_key_done(k2, w1, m1, w2, m2, r2),
    ensures
        unchanged(w0, w2),
        m2 == m0,
        r1 is None && r2 is None,
{
    let n = w0.fields@.len();
    crate::ui::keys::lemma_wrap_inverse(w0.focused as nat, n);
    vstd::arithmetic::div_mod::lemma_small_mod(w0.focused as nat, n);
}

} // verus!
