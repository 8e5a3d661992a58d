use vstd::prelude::*;

use crate::model::routing::{RoutingRule, opt_texts};
use crate::text::{join, join_strings, lit, str_eq, texts};
use crate::ui::builder::ot;
use crate::ui::app::Action;
use crate::ui::keys::{KeyInput, KeyPress, cursor_down, cursor_up, is_down, is_up, move_down, move_up};

verus! {

/// Whether the routing editor is adding a rule or editing one.
#[derive(Debug, Clone, Copy, PartialEq, Eq, Structural)]
pub enum RoutingEditMode {
    New,
    Edit(usize),
}

/// The number of commands of the routing editor: new, edit, delete, move
/// up, move down, toggle, load presets, save.
pub open spec fn routing_command_count() -> nat {
    8
}

/// What presets are told apart by: the domains, the IPs and the outbound.
pub open spec fn rule_key(r: RoutingRule) -> (Option<Seq<Seq<char>>>, Option<Seq<Seq<char>>>, Seq<char>) {
    (opt_texts(r.domain), opt_texts(r.ip), r.outbound_tag@)
}

/// Some rule of `rs` has the key `k`.
pub open spec fn has_key(rs: Seq<RoutingRule>, k: (Option<Seq<Seq<char>>>, Option<Seq<Seq<char>>>, Seq<char>)) -> bool {
    exists|i: int| 0 <= i < rs.len() && #[trigger] rule_key(rs[i]) == k
}

/// `p` appended unless a rule with its key is already there.
pub open spec fn with_preset(rs: Seq<RoutingRule>, p: RoutingRule) -> Seq<RoutingRule> {
    if has_key(rs, rule_key(p)) { rs } else { rs.push(p) }
}

/// The presets `ps` appended in order, each unless a rule with its key is
/// already there (one appended before counts).
pub open spec fn add_missing(rs: Seq<RoutingRule>, ps: Seq<RoutingRule>) -> Seq<RoutingRule>
    decreases ps.len(),
{
    if ps.len() == 0 {
        rs
    } else {
        with_preset(add_missing(rs, ps.drop_last()), ps.last())
    }
}

/// The four presets, as `RoutingRule::all_presets` gives them.
pub open spec fn are_presets(ps: Seq<RoutingRule>) -> bool {
    &&& ps.len() == 4
    &&& ps[0].is_field_rule(Some(seq!["geosite:cn"@]), None, "direct"@)
    &&& ps[1].is_field_rule(Some(seq!["geosite:category-ads-all"@]), None, "block"@)
    &&& ps[2].is_field_rule(None, Some(seq!["geoip:cn"@]), "direct"@)
    &&& ps[3].is_field_rule(None, Some(seq!["geoip:private"@]), "direct"@)
}

/// The rules with the one at `i` and the one before it swapped.
pub open spec fn swapped(s: Seq<RoutingRule>, i: int) -> Seq<RoutingRule> {
    s.update(i - 1, s[i]).update(i, s[i - 1])
}

/// The outbound a rule is switched to: `direct` from `block`, `block` from
/// anything else.
pub open spec fn flipped_tag(t: Seq<char>) -> Seq<char> {
    if t == "block"@ { "direct"@ } else { "block"@ }
}

/// Two rules agree on everything but the outbound.
pub open spec fn same_but_tag(a: RoutingRule, b: RoutingRule) -> bool {
    &&& b.domain == a.domain
    &&& b.ip == a.ip
    &&& b.port == a.port
    &&& b.source == a.source
    &&& b.source_port == a.source_port
    &&& b.network == a.network
    &&& b.protocol == a.protocol
    &&& b.inbound_tag == a.inbound_tag
    &&& b.type_ == a.type_
    &&& b.user == a.user
}

/// `b` is `a` switched between blocking and going direct.
pub open spec fn toggled(a: RoutingRule, b: RoutingRule) -> bool {
    same_but_tag(a, b) && b.outbound_tag@ == flipped_tag(a.outbound_tag@)
}

/// The selection after deleting the selected rule: it stays, or moves to
/// the last rule left (0 when none is left).
pub open spec fn after_delete(sel: nat, len: nat) -> nat {
    if len == 0 { 0 } else if sel < len { sel } else { (len - 1) as nat }
}

fn same_texts(a: &Vec<String>, b: &Vec<String>) -> (r: bool)
    ensures
        r == (a.deep_view() == b.deep_view()),
{
    if a.len() != b.len() {
        assert(a.deep_view().len() != b.deep_view().len());
        return false;
    }
    let mut i: usize = 0;
    while i < a.len()
        invariant
            a@.len() == b@.len(),
            i <= a@.len(),
            forall|j: int| 0 <= j < i ==> a@[j]@ == b@[j]@,
        decreases a@.len() - i,
    {
        if !str_eq(a[i].as_str(), b[i].as_str()) {
            assert(a.deep_view()[i as int] != b.deep_view()[i as int]);
            return false;
        }
        i += 1;
    }
    assert(a.deep_view() =~= b.deep_view());
    true
}

fn same_domains(a: &Option<Vec<String>>, b: &Option<Vec<String>>) -> (r: bool)
    ensures
        r == (opt_texts(*a) == opt_texts(*b)),
{
    match (a, b) {
        (Some(x), Some(y)) => same_texts(x, y),
        (None, None) => true,
        _ => false,
    }
}

/// Whether a rule with the key of `p` is among `rules`.
fn key_present(rules: &Vec<RoutingRule>, p: &RoutingRule) -> (r: bool)
    ensures
        r == has_key(rules@, rule_key(*p)),
{
    let mut i: usize = 0;
    while i < rules.len()
        invariant
            i <= rules@.len(),
            forall|j: int| 0 <= j < i ==> rule_key(#[trigger] rules@[j]) != rule_key(*p),
        decreases rules@.len() - i,
    {
        if same_domains(&rules[i].domain, &p.domain)
            && same_domains(&rules[i].ip, &p.ip)
            && str_eq(rules[i].outbound_tag.as_str(), p.outbound_tag.as_str()) {
            assert(rule_key(rules@[i as int]) == rule_key(*p));
            return true;
        }
        i += 1;
    }
    false
}

/// Appends the presets that are missing (see `add_missing`).
pub fn load_presets(rules: &mut Vec<RoutingRule>)
    ensures
        exists|ps: Seq<RoutingRule>| #[trigger] are_presets(ps) && final(rules)@ == add_missing(old(rules)@, ps),
{
    let mut ps = RoutingRule::all_presets();
    let ghost all = ps@;
    let ghost start = rules@;
    let mut k: usize = 0;
    while ps.len() > 0
        invariant
            all.len() == 4,
            k + ps@.len() == 4,
            ps@ == all.skip(k as int),
            rules@ == add_missing(start, all.take(k as int)),
        decreases ps@.len(),
    {
        let p = ps.remove(0);
        assert(p == all[k as int]);
        assert(all.take(k + 1).drop_last() =~= all.take(k as int));
        assert(all.take(k + 1).last() == p);
        if !key_present(rules, &p) {
            rules.push(p);
        }
        assert(ps@ =~= all.skip(k + 1));
        k += 1;
    }
    assert(all.take(4) =~= all);
    assert(are_presets(all));
}

/// Deletes the selected rule; the selection stays, or moves to the last
/// rule left.
pub fn delete_rule(rules: &mut Vec<RoutingRule>, selected: &mut usize)
    requires
        *old(selected) < old(rules)@.len(),
    ensures
        final(rules)@ == old(rules)@.remove(*old(selected) as int),
        *final(selected) == after_delete(*old(selected) as nat, final(rules)@.len()),
{
    rules.remove(*selected);
    if rules.len() == 0 {
        *selected = 0;
    } else if *selected >= rules.len() {
        *selected = rules.len() - 1;
    }
}

/// Moves the selected rule one place up (earlier), and the selection with it.
pub fn move_rule_up(rules: &mut Vec<RoutingRule>, selected: &mut usize)
    requires
        0 < *old(selected) < old(rules)@.len(),
    ensures
        final(rules)@ == swapped(old(rules)@, *old(selected) as int),
        *final(selected) == *old(selected) - 1,
{
    let i = *selected;
    let r = rules.remove(i);
    rules.insert(i - 1, r);
    assert(rules@ =~= swapped(old(rules)@, i as int));
    *selected = i - 1;
}

/// Moves the selected rule one place down (later), and the selection with it.
pub fn move_rule_down(rules: &mut Vec<RoutingRule>, selected: &mut usize)
    requires
        *old(selected) + 1 < old(rules)@.len(),
    ensures
        final(rules)@ == swapped(old(rules)@, *old(selected) + 1),
        *final(selected) == *old(selected) + 1,
{
    let i = *selected;
    let n = rules.len();
    assert(i + 1 < n);
    let r = rules.remove(i + 1);
    rules.insert(i, r);
    assert(rules@ =~= swapped(old(rules)@, i + 1));
    *selected = i + 1;
}

/// Switches rule `i` between blocking and going direct.
pub fn toggle_rule(rules: &mut Vec<RoutingRule>, i: usize)
    requires
        i < old(rules)@.len(),
    ensures
        final(rules)@.len() == old(rules)@.len(),
        final(rules)@ == old(rules)@.update(i as int, final(rules)@[i as int]),
        toggled(old(rules)@[i as int], final(rules)@[i as int]),
{
    let mut r = rules.remove(i);
    if str_eq(r.outbound_tag.as_str(), "block") {
        r.outbound_tag = lit("direct");
    } else {
        r.outbound_tag = lit("block");
    }
    rules.insert(i, r);
    assert(rules@ =~= old(rules)@.update(i as int, r));
}

/// The selection is on a rule, or on the first place when there are no rules.
pub open spec fn selection_valid(rules: Seq<RoutingRule>, selected: nat) -> bool {
    selected == 0 || selected < rules.len()
}

/// Adding presets never removes a rule.
pub proof fn lemma_add_missing_grows(rs: Seq<RoutingRule>, ps: Seq<RoutingRule>)
    ensures
        add_missing(rs, ps).len() >= rs.len(),
        add_missing(rs, ps).subrange(0, rs.len() as int) == rs,
    decreases ps.len(),
{
    if ps.len() > 0 {
        lemma_add_missing_grows(rs, ps.drop_last());
        let a = add_missing(rs, ps.drop_last());
        assert(with_preset(a, ps.last()).subrange(0, rs.len() as int) =~= a.subrange(0, rs.len() as int));
    }
}

/// What a key press does in the routing editor. Up and down move the
/// command cursor, left and right the selected rule; Enter runs the command
/// under the cursor: new and edit open the rule form, delete, move up, move
/// down, toggle and load presets change the rules and ask for them to be
/// saved, save asks for it; a command that needs a rule does nothing
/// without one. Esc closes the rule form.
pub open spec fn routing_key_done(
    k: KeyPress,
    rules: Seq<RoutingRule>,
    cursor: nat,
    sel: nat,
    editing: Option<RoutingEditMode>,
    rules2: Seq<RoutingRule>,
    cursor2: nat,
    sel2: nat,
    editing2: Option<RoutingEditMode>,
    r: Option<Action>,
) -> bool {
    let len = rules.len();
    if is_up(k.code) {
        rules2 == rules && cursor2 == cursor_up(cursor) && sel2 == sel && editing2 == editing && r is None
    } else if is_down(k.code) {
        rules2 == rules && cursor2 == cursor_down(cursor, routing_command_count()) && sel2 == sel
            && editing2 == editing && r is None
    } else if k.code == KeyInput::Left {
        rules2 == rules && cursor2 == cursor && sel2 == cursor_up(sel) && editing2 == editing && r is None
    } else if k.code == KeyInput::Right {
        rules2 == rules && cursor2 == cursor && sel2 == cursor_down(sel, len) && editing2 == editing
            && r is None
    } else if k.code == KeyInput::Enter {
        &&& cursor2 == cursor
        &&& if cursor == 0 {
            rules2 == rules && sel2 == sel && editing2 == Some(RoutingEditMode::New) && r is None
        } else if cursor == 1 && len > 0 {
            rules2 == rules && sel2 == sel && editing2 == Some(RoutingEditMode::Edit(sel as usize))
                && r is None
        } else if cursor == 2 && len > 0 {
            rules2 == rules.remove(sel as int) && sel2 == after_delete(sel, rules2.len())
                && editing2 == editing && r matches Some(Action::SaveRouting)
        } else if cursor == 3 && len > 0 && sel > 0 {
            rules2 == swapped(rules, sel as int) && sel2 == sel - 1 && editing2 == editing
                && r matches Some(Action::SaveRouting)
        } else if cursor == 4 && len > 0 && sel + 1 < len {
            rules2 == swapped(rules, (sel + 1) as int) && sel2 == sel + 1 && editing2 == editing
                && r matches Some(Action::SaveRouting)
        } else if cursor == 5 && len > 0 {
            &&& rules2.len() == len
            &&& rules2 == rules.update(sel as int, rules2[sel as int])
            &&& toggled(rules[sel as int], rules2[sel as int])
            &&& sel2 == sel && editing2 == editing && r matches Some(Action::SaveRouting)
        } else if cursor == 6 {
            &&& exists|ps: Seq<RoutingRule>| #[trigger] are_presets(ps) && rules2 == add_missing(rules, ps)
            &&& sel2 == sel && editing2 == editing && r matches Some(Action::SaveRouting)
        } else if cursor == 7 {
            rules2 == rules && sel2 == sel && editing2 == editing && r matches Some(Action::SaveRouting)
        } else {
            rules2 == rules && sel2 == sel && editing2 == editing && r is None
        }
    } else if k.code == KeyInput::Esc && editing is Some {
        rules2 == rules && cursor2 == cursor && sel2 == sel && editing2 is None && r is None
    } else {
        rules2 == rules && cursor2 == cursor && sel2 == sel && editing2 == editing && r is None
    }
}

/// What a key press does in the routing editor (see `routing_key_done`).
pub fn handle_key(
    key: KeyPress,
    cursor: &mut usize,
    rules: &mut Vec<RoutingRule>,
    selected: &mut usize,
    editing: &mut Option<RoutingEditMode>,
) -> (r: Option<Action>)
    requires
        selection_valid(old(rules)@, *old(selected) as nat),
    ensures
        routing_key_done(
            key,
            old(rules)@,
            *old(cursor) as nat,
            *old(selected) as nat,
            *old(editing),
            final(rules)@,
            *final(cursor) as nat,
            *final(selected) as nat,
            *final(editing),
            r,
        ),
        selection_valid(final(rules)@, *final(selected) as nat),
{
    let len = rules.len();
    match key.code {
        KeyInput::Up | KeyInput::Char('k') => {
            move_up(cursor);
            None
        },
        KeyInput::Down | KeyInput::Char('j') => {
            move_down(cursor, 8);
            None
        },
        KeyInput::Left => {
            move_up(selected);
            None
        },
        KeyInput::Right => {
            move_down(selected, len);
            None
        },
        KeyInput::Enter => {
            let c = *cursor;
            if c == 0 {
                *editing = Some(RoutingEditMode::New);
                None
            } else if c == 1 && len > 0 {
                *editing = Some(RoutingEditMode::Edit(*selected));
                None
            } else if c == 2 && len > 0 {
                delete_rule(rules, selected);
                Some(Action::SaveRouting)
            } else if c == 3 && len > 0 && *selected > 0 {
                move_rule_up(rules, selected);
                Some(Action::SaveRouting)
            } else if c == 4 && len > 0 && *selected < len && *selected + 1 < len {
                move_rule_down(rules, selected);
                Some(Action::SaveRouting)
            } else if c == 5 && len > 0 {
                toggle_rule(rules, *selected);
                Some(Action::SaveRouting)
            } else if c == 6 {
                load_presets(rules);
                proof {
                    let ps = choose|ps: Seq<RoutingRule>| #[trigger] are_presets(ps) && rules@ == add_missing(old(rules)@, ps);
                    lemma_add_missing_grows(old(rules)@, ps);
                }
                Some(Action::SaveRouting)
            } else if c == 7 {
                Some(Action::SaveRouting)
            } else {
                None
            }
        },
        KeyInput::Esc => {
            if editing.is_some() {
                *editing = None;
            }
            None
        },
        _ => None,
    }
}

proof fn lemma_keys_added(rs: Seq<RoutingRule>, ps: Seq<RoutingRule>, j: int)
    requires
        0 <= j < ps.len(),
    ensures
        has_key(add_missing(rs, ps), rule_key(ps[j])),
    decreases ps.len(),
{
    let a = add_missing(rs, ps.drop_last());
    if j == ps.len() - 1 {
        if !has_key(a, rule_key(ps.last())) {
            assert(rule_key(a.push(ps.last())[a.len() as int]) == rule_key(ps[j]));
        }
    } else {
        lemma_keys_added(rs, ps.drop_last(), j);
        assert(ps.drop_last()[j] == ps[j]);
        let k = rule_key(ps[j]);
        let i = choose|i: int| 0 <= i < a.len() && #[trigger] rule_key(a[i]) == k;
        assert(rule_key(with_preset(a, ps.last())[i]) == k);
    }
}

proof fn lemma_nothing_missing(rs: Seq<RoutingRule>, ps: Seq<RoutingRule>)
    requires
        forall|j: int| 0 <= j < ps.len() ==> has_key(rs, #[trigger] rule_key(ps[j])),
    ensures
        add_missing(rs, ps) == rs,
    decreases ps.len(),
{
    if ps.len() > 0 {
        assert forall|j: int| 0 <= j < ps.drop_last().len() implies has_key(rs, #[trigger] rule_key(ps.drop_last()[j])) by {
            assert(ps.drop_last()[j] == ps[j]);
        }
        lemma_nothing_missing(rs, ps.drop_last());
        assert(has_key(rs, rule_key(ps[ps.len() - 1])));
    }
}

/// Loading the presets a second time adds nothing: every preset's domains,
/// IPs and outbound are then already among the rules.
pub proof fn lemma_load_presets_idempotent(rs: Seq<RoutingRule>, ps: Seq<RoutingRule>)
    ensures
        add_missing(add_missing(rs, ps), ps) == add_missing(rs, ps),
{
    let a = add_missing(rs, ps);
    assert forall|j: int| 0 <= j < ps.len() implies has_key(a, #[trigger] rule_key(ps[j])) by {
        lemma_keys_added(rs, ps, j);
    }
    lemma_nothing_missing(a, ps);
}

/// On a list with none of them, loading the presets adds all four, in
/// order: no two presets share domains, IPs and outbound.
pub proof fn lemma_presets_on_empty(ps: Seq<RoutingRule>)
    requires
        are_presets(ps),
    ensures
        add_missing(Seq::empty(), ps) == ps,
{
    reveal_strlit("geoip:cn");
    reveal_strlit("geoip:private");
    reveal_strlit("block");
    reveal_strlit("direct");
    let e = Seq::<RoutingRule>::empty();
    assert(ps.take(1).drop_last() =~= ps.take(0));
    assert(ps.take(2).drop_last() =~= ps.take(1));
    assert(ps.take(3).drop_last() =~= ps.take(2));
    assert(ps.take(4).drop_last() =~= ps.take(3));
    assert(ps.take(4) =~= ps);
    assert(add_missing(e, ps.take(0)) =~= e);
    assert(!has_key(e, rule_key(ps[0])));
    assert(add_missing(e, ps.take(1)) =~= seq![ps[0]]);
    assert(rule_key(ps[0]) != rule_key(ps[1])) by {
        assert(rule_key(ps[0]).2.len() != rule_key(ps[1]).2.len());
    }
    assert(!has_key(seq![ps[0]], rule_key(ps[1])));
    assert(add_missing(e, ps.take(2)) =~= seq![ps[0], ps[1]]);
    assert(rule_key(ps[2]).0 is None);
    assert(!has_key(seq![ps[0], ps[1]], rule_key(ps[2])));
    assert(add_missing(e, ps.take(3)) =~= seq![ps[0], ps[1], ps[2]]);
    assert(rule_key(ps[2]).1 != rule_key(ps[3]).1) by {
        assert("geoip:cn"@.len() != "geoip:private"@.len());
        assert(seq!["geoip:cn"@][0] != seq!["geoip:private"@][0]);
    }
    assert(!has_key(seq![ps[0], ps[1], ps[2]], rule_key(ps[3])));
    assert(add_missing(e, ps.take(4)) =~= ps);
}

/// Moving a rule up and then down again restores the rules.
pub proof fn lemma_move_up_then_down(s: Seq<RoutingRule>, i: int)
    requires
        0 < i < s.len(),
    ensures
        swapped(swapped(s, i), (i - 1) + 1) == s,
{
    assert(swapped(swapped(s, i), (i - 1) + 1) =~= s);
}

/// Switching a rule that blocks or goes direct twice brings back its
/// outbound and leaves the rest alone.
pub proof fn lemma_toggle_twice(a: RoutingRule, b: RoutingRule, c: RoutingRule)
    requires
        a.outbound_tag@ == "block"@ || a.outbound_tag@ == "direct"@,
        toggled(a, b),
        toggled(b, c),
    ensures
        same_but_tag(a, c),
        c.outbound_tag@ == a.outbound_tag@,
{
    reveal_strlit("block");
    reveal_strlit("direct");
}

/// How a rule is listed: what it matches on (`domain`, `ip` or `any`), the
/// values it matches (its domains, else its IPs, else its port, else its
/// protocols, joined with commas; `*` for none), and a mark that is filled
/// for a blocking rule.
pub open spec fn rule_info_spec(r: RoutingRule) -> (Seq<char>, Seq<char>, Seq<char>) {
    let kind = if r.domain is Some { "domain"@ } else if r.ip is Some { "ip"@ } else { "any"@ };
    let matches = match r.domain {
        Some(d) => join(texts(d@), ","@),
        None => match r.ip {
            Some(i) => join(texts(i@), ","@),
            None => match ot(r.port) {
                Some(p) => p,
                None => match r.protocol {
                    Some(p) => join(texts(p@), ","@),
                    None => "*"@,
                },
            },
        },
    };
    let mark = if r.outbound_tag@ == "block"@ { "●"@ } else { "○"@ };
    (kind, matches, mark)
}

/// How a rule is listed (see `rule_info_spec`).
pub fn rule_info(r: &RoutingRule) -> (res: (String, String, String))
    ensures
        (res.0@, res.1@, res.2@) == rule_info_spec(*r),
{
    let kind = if r.domain.is_some() {
        lit("domain")
    } else if r.ip.is_some() {
        lit("ip")
    } else {
        lit("any")
    };
    let matches = match &r.domain {
        Some(d) => join_strings(d, ","),
        None => match &r.ip {
            Some(i) => join_strings(i, ","),
            None => match &r.port {
                Some(p) => p.clone(),
                None => match &r.protocol {
                    Some(p) => join_strings(p, ","),
                    None => lit("*"),
                },
            },
        },
    };
    let mark = if str_eq(r.outbound_tag.as_str(), "block") { lit("●") } else { lit("○") };
    (kind, matches, mark)
}

} // verus!
