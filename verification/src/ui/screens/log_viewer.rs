use vstd::prelude::*;

use crate::text::{lit, str_eq};
use crate::ui::app::Action;
use crate::ui::keys::{KeyInput, KeyPress, cursor_down, cursor_up, move_down, move_up};

verus! {

/// What the log viewer shows and how.
#[derive(Debug, Clone)]
pub struct LogViewerState {
    pub lines: Vec<String>,
    pub auto_scroll: bool,
    pub scroll_offset: u16,
    pub level_filter: String,
}

impl Default for LogViewerState {
    /// A viewer with a hint to refresh, scrolling along, at level `info`.
    fn default() -> (r: Self)
        ensures
            r.lines@.len() == 1,
            r.lines@[0]@ == "No logs. Select 'Refresh'. "@,
            r.auto_scroll,
            r.scroll_offset == 0,
            r.level_filter@ == "info"@,
    {
        let mut lines: Vec<String> = Vec::new();
        lines.push(lit("No logs. Select 'Refresh'. "));
        LogViewerState { lines, auto_scroll: true, scroll_offset: 0, level_filter: lit("info") }
    }
}

/// The level after `l` in the cycle info, warn, err, debug, all; any other
/// level goes back to info.
pub open spec fn next_level(l: Seq<char>) -> Seq<char> {
    if l == "info"@ {
        "warn"@
    } else if l == "warn"@ {
        "err"@
    } else if l == "err"@ {
        "debug"@
    } else if l == "debug"@ {
        "all"@
    } else {
        "info"@
    }
}

/// The furthest the view can scroll back over `n` lines: the last line, as
/// a `u16` (wrapping past 65535).
pub open spec fn max_offset(n: nat) -> nat {
    (if n > 0 { (n - 1) as nat } else { 0 }) % 65536
}

/// The view is the same apart from the scrolling.
pub open spec fn same_lines(pre: LogViewerState, post: LogViewerState) -> bool {
    post.lines == pre.lines && post.level_filter == pre.level_filter
}

/// What a key press does in the log viewer. Up scrolls back one line (not
/// past the first) and down forward one, both stopping the automatic
/// scrolling when they move; page up and page down move by fifteen;
/// left and right move the command cursor; Enter refreshes (asking for the
/// lines at the current level), switches automatic scrolling (back to the
/// newest line when it comes on), or moves to the next level.
pub open spec fn log_key_done(
    k: KeyPress,
    pre: LogViewerState,
    c: nat,
    post: LogViewerState,
    c2: nat,
    r: Option<Action>,
) -> bool {
    let n = pre.lines@.len();
    if k.code == KeyInput::Up || k.code == KeyInput::Char('k') {
        &&& same_lines(pre, post) && c2 == c && r is None
        &&& if pre.scroll_offset < max_offset(n) {
            post.scroll_offset == pre.scroll_offset + 1 && !post.auto_scroll
        } else {
            post.scroll_offset == pre.scroll_offset && post.auto_scroll == pre.auto_scroll
        }
    } else if k.code == KeyInput::Down || k.code == KeyInput::Char('j') {
        &&& same_lines(pre, post) && c2 == c && r is None
        &&& if pre.scroll_offset > 0 {
            post.scroll_offset == pre.scroll_offset - 1 && !post.auto_scroll
        } else {
            post.scroll_offset == pre.scroll_offset && post.auto_scroll == pre.auto_scroll
        }
    } else if k.code == KeyInput::Left {
        same_lines(pre, post) && post.scroll_offset == pre.scroll_offset && post.auto_scroll == pre.auto_scroll
            && c2 == cursor_up(c) && r is None
    } else if k.code == KeyInput::Right {
        same_lines(pre, post) && post.scroll_offset == pre.scroll_offset && post.auto_scroll == pre.auto_scroll
            && c2 == cursor_down(c, 3) && r is None
    } else if k.code == KeyInput::Enter {
        &&& c2 == c
        &&& if c == 0 {
            &&& same_lines(pre, post) && post.scroll_offset == pre.scroll_offset && post.auto_scroll == pre.auto_scroll
            &&& r matches Some(Action::FetchLogs(l)) && l@ == pre.level_filter@
        } else if c == 1 {
            &&& same_lines(pre, post) && r is None
            &&& post.auto_scroll == !pre.auto_scroll
            &&& post.scroll_offset == (if post.auto_scroll { 0 } else { pre.scroll_offset })
        } else if c == 2 {
            &&& post.lines == pre.lines && post.level_filter@ == next_level(pre.level_filter@)
            &&& post.scroll_offset == pre.scroll_offset && post.auto_scroll == pre.auto_scroll
            &&& r is None
        } else {
            same_lines(pre, post) && post.scroll_offset == pre.scroll_offset && post.auto_scroll == pre.auto_scroll
                && r is None
        }
    } else if k.code == KeyInput::PageUp {
        &&& same_lines(pre, post) && c2 == c && r is None
        &&& post.scroll_offset == (if pre.scroll_offset + 15 < max_offset(n) { pre.scroll_offset + 15 } else { max_offset(n) as int })
        &&& !post.auto_scroll
    } else if k.code == KeyInput::PageDown {
        &&& same_lines(pre, post) && c2 == c && r is None
        &&& post.scroll_offset == (if pre.scroll_offset >= 15 { pre.scroll_offset - 15 } else { 0 })
        &&& post.auto_scroll == pre.auto_scroll
    } else {
        same_lines(pre, post) && post.scroll_offset == pre.scroll_offset && post.auto_scroll == pre.auto_scroll
            && c2 == c && r is None
    }
}

/// The level after `l` in the cycle (see `next_level`).
pub fn cycle_level(l: &str) -> (r: String)
    ensures
        r@ == next_level(l@),
{
    if str_eq(l, "info") {
        lit("warn")
    } else if str_eq(l, "warn") {
        lit("err")
    } else if str_eq(l, "err") {
        lit("debug")
    } else if str_eq(l, "debug") {
        lit("all")
    } else {
        lit("info")
    }
}

fn max_offset_of(n: usize) -> (r: u16)
    ensures
        r == max_offset(n as nat),
{
    let m: usize = if n > 0 { n - 1 } else { 0 };
    (m % 65536) as u16
}

/// What a key press does in the log viewer (see `log_key_done`).
pub fn handle_key(key: KeyPress, cursor: &mut usize, state: &mut LogViewerState) -> (r: Option<Action>)
    ensures
        log_key_done(key, *old(state), *old(cursor) as nat, *final(state), *final(cursor) as nat, r),
{
    let top = max_offset_of(state.lines.len());
    match key.code {
        KeyInput::Up | KeyInput::Char('k') => {
            if state.scroll_offset < top {
                state.scroll_offset = state.scroll_offset + 1;
                state.auto_scroll = false;
            }
            None
        },
        KeyInput::Down | KeyInput::Char('j') => {
            if state.scroll_offset > 0 {
                state.scroll_offset = state.scroll_offset - 1;
                state.auto_scroll = false;
            }
            None
        },
        KeyInput::Left => {
            move_up(cursor);
            None
        },
        KeyInput::Right => {
            move_down(cursor, 3);
            None
        },
        KeyInput::Enter => {
            let c = *cursor;
            if c == 0 {
                Some(Action::FetchLogs(state.level_filter.clone()))
            } else if c == 1 {
                state.auto_scroll = !state.auto_scroll;
                if state.auto_scroll {
                    state.scroll_offset = 0;
                }
                None
            } else if c == 2 {
                state.level_filter = cycle_level(state.level_filter.as_str());
                None
            } else {
                None
            }
        },
        KeyInput::PageUp => {
            let up: u32 = state.scroll_offset as u32 + 15;
            state.scroll_offset = if up < top as u32 { up as u16 } else { top };
            state.auto_scroll = false;
            None
        },
        KeyInput::PageDown => {
            state.scroll_offset = if state.scroll_offset >= 15 { state.scroll_offset - 15 } else { 0 };
            None
        },
        _ => None,
    }
}

/// Cycling the level five times comes back to any of the five levels.
pub proof fn lemma_level_cycle(l: Seq<char>)
    requires
        l == "info"@ || l == "warn"@ || l == "err"@ || l == "debug"@ || l == "all"@,
    ensures
        next_level(next_level(next_level(next_level(next_level(l))))) == l,
{
    reveal_strlit("info");
    reveal_strlit("warn");
    reveal_strlit("err");
    reveal_strlit("debug");
    reveal_strlit("all");
    let (i, w, e, d, a) = ("info"@, "warn"@, "err"@, "debug"@, "all"@);
    assert(i[0] != w[0] && i[0] != e[0] && i[0] != d[0] && i[0] != a[0]);
    assert(w[0] != e[0] && w[0] != d[0] && w[0] != a[0]);
    assert(e[0] != d[0] && e[0] != a[0] && d[0] != a[0]);
    assert(i != w && i != e && i != d && i != a && w != e && w != d && w != a);
    assert(e != d && e != a && d != a);
}

} // verus!
