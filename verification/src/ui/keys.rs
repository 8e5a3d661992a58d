use vstd::prelude::*;

verus! {

/// The key that was pressed, as the screens tell keys apart.
#[derive(Debug, Clone, Copy, PartialEq, Eq, Structural)]
pub enum KeyInput {
    Char(char),
    Enter,
    Esc,
    Tab,
    BackTab,
    Up,
    Down,
    Left,
    Right,
    Backspace,
    PageUp,
    PageDown,
    Other,
}

/// A key press: the key and the modifiers held with it.
#[derive(Debug, Clone, Copy, PartialEq, Eq, Structural)]
pub struct KeyPress {
    pub code: KeyInput,
    pub ctrl: bool,
    pub shift: bool,
    /// Alt, Super, Hyper or Meta.
    pub other_modifiers: bool,
}

impl KeyPress {
    /// No modifier is held.
    pub open spec fn plain(self) -> bool {
        !self.ctrl && !self.shift && !self.other_modifiers
    }

    /// A press of `code` with no modifier.
    pub fn bare(code: KeyInput) -> (r: Self)
        ensures
            r.code == code,
            r.plain(),
    {
        KeyPress { code, ctrl: false, shift: false, other_modifiers: false }
    }

    /// Says whether no modifier is held.
    pub fn no_modifiers(&self) -> (r: bool)
        ensures
            r == self.plain(),
    {
        !self.ctrl && !self.shift && !self.other_modifiers
    }
}

/// The key moves a menu cursor up: `Up` or `k`.
pub open spec fn is_up(k: KeyInput) -> bool {
    k == KeyInput::Up || k == KeyInput::Char('k')
}

/// The key moves a menu cursor down: `Down` or `j`.
pub open spec fn is_down(k: KeyInput) -> bool {
    k == KeyInput::Down || k == KeyInput::Char('j')
}

/// A cursor moved one up, stopping at the top.
pub open spec fn cursor_up(c: nat) -> nat {
    if c > 0 { (c - 1) as nat } else { 0 }
}

/// A cursor moved one down in a menu of `n` entries, stopping at the last.
pub open spec fn cursor_down(c: nat, n: nat) -> nat {
    if c + 1 < n { c + 1 } else { c }
}

/// Moves a menu cursor one up, stopping at the top.
pub fn move_up(c: &mut usize)
    ensures
        *final(c) == cursor_up(*old(c) as nat),
{
    if *c > 0 {
        *c = *c - 1;
    }
}

/// Moves a menu cursor one down in a menu of `n` entries, stopping at the last.
pub fn move_down(c: &mut usize, n: usize)
    ensures
        *final(c) == cursor_down(*old(c) as nat, n as nat),
{
    if *c < n && *c + 1 < n {
        *c = *c + 1;
    }
}

/// The next of `n` places after `f`, wrapping around (`f` itself when there
/// is no place).
pub open spec fn wrap_next(f: nat, n: nat) -> nat {
    if n == 0 { f } else if f % n + 1 == n { 0 } else { f % n + 1 }
}

/// The place of `n` before `f`, wrapping around (`f` itself when there is no
/// place).
pub open spec fn wrap_prev(f: nat, n: nat) -> nat {
    if n == 0 { f } else if f % n == 0 { (n - 1) as nat } else { (f % n - 1) as nat }
}

/// The next of `n` places after `f`, wrapping around.
pub fn next_wrapping(f: usize, n: usize) -> (r: usize)
    ensures
        r == wrap_next(f as nat, n as nat),
{
    if n == 0 {
        f
    } else if f % n + 1 == n {
        0
    } else {
        f % n + 1
    }
}

/// The place of `n` before `f`, wrapping around.
pub fn prev_wrapping(f: usize, n: usize) -> (r: usize)
    ensures
        r == wrap_prev(f as nat, n as nat),
{
    if n == 0 {
        f
    } else if f % n == 0 {
        n - 1
    } else {
        f % n - 1
    }
}

/// Moving forward then back among `n > 0` places lands on the place one
/// started from (taken modulo `n`), and so does moving back then forward.
pub proof fn lemma_wrap_inverse(f: nat, n: nat)
    requires
        n > 0,
    ensures
        wrap_prev(wrap_next(f, n), n) == f % n,
        wrap_next(wrap_prev(f, n), n) == f % n,
{
    let m = f % n;
    assert(m < n);
    let a = wrap_next(f, n);
    assert(a < n);
    assert(a % n == a) by {
        vstd::arithmetic::div_mod::lemma_small_mod(a, n);
    }
    let b = wrap_prev(f, n);
    assert(b < n);
    assert(b % n == b) by {
        vstd::arithmetic::div_mod::lemma_small_mod(b, n);
    }
}

} // verus!
