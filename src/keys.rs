use vstd::prelude::*;

verus! {

/// The logical key of a key event.
#[derive(Clone, Copy, Debug, PartialEq, Eq, Structural)]
pub enum KeyCode {
    Char(char),
    Enter,
    Backspace,
    Delete,
    Left,
    Right,
    Up,
    Down,
    Home,
    End,
    Tab,
    BackTab,
    Esc,
    PageUp,
    PageDown,
    /// Any key the session does not act on.
    Other,
}

/// The modifier keys held during a key event.
#[derive(Clone, Copy, Debug, PartialEq, Eq, Structural)]
pub struct KeyModifiers {
    pub shift: bool,
    pub control: bool,
    pub alt: bool,
    /// Super, hyper or meta.
    pub other: bool,
}

impl KeyModifiers {
    pub open spec fn is_none_spec(self) -> bool {
        !self.shift && !self.control && !self.alt && !self.other
    }

    pub open spec fn is_control_only_spec(self) -> bool {
        !self.shift && self.control && !self.alt && !self.other
    }

    pub open spec fn is_shift_only_spec(self) -> bool {
        self.shift && !self.control && !self.alt && !self.other
    }

    /// No modifier.
    pub fn none() -> (r: KeyModifiers)
        ensures
            r.is_none_spec(),
    {
        KeyModifiers { shift: false, control: false, alt: false, other: false }
    }

    /// Control alone.
    pub fn control() -> (r: KeyModifiers)
        ensures
            r.is_control_only_spec(),
    {
        KeyModifiers { shift: false, control: true, alt: false, other: false }
    }

    /// Shift alone.
    pub fn shift() -> (r: KeyModifiers)
        ensures
            r.is_shift_only_spec(),
    {
        KeyModifiers { shift: true, control: false, alt: false, other: false }
    }

    pub fn is_none(&self) -> (r: bool)
        ensures
            r == self.is_none_spec(),
    {
        !self.shift && !self.control && !self.alt && !self.other
    }

    pub fn is_control_only(&self) -> (r: bool)
        ensures
            r == self.is_control_only_spec(),
    {
        !self.shift && self.control && !self.alt && !self.other
    }

    pub fn is_shift_only(&self) -> (r: bool)
        ensures
            r == self.is_shift_only_spec(),
    {
        self.shift && !self.control && !self.alt && !self.other
    }
}

/// Whether a key went down, repeated, or came up.
#[derive(Clone, Copy, Debug, PartialEq, Eq, Structural)]
pub enum KeyEventKind {
    Press,
    Repeat,
    Release,
}

/// One key event.
#[derive(Clone, Copy, Debug, PartialEq, Eq, Structural)]
pub struct KeyPress {
    pub code: KeyCode,
    pub modifiers: KeyModifiers,
    pub kind: KeyEventKind,
}

impl KeyPress {
    /// A key pressed with the given modifiers.
    pub fn new(code: KeyCode, modifiers: KeyModifiers) -> (r: KeyPress)
        ensures
            r == (KeyPress { code, modifiers, kind: KeyEventKind::Press }),
    {
        KeyPress { code, modifiers, kind: KeyEventKind::Press }
    }
}

/// Whether a key ends the program: Ctrl-C or Ctrl-] on every screen, and a
/// plain `q` where `q` quits. A key coming up never does.
pub open spec fn is_quit_spec(key: KeyPress, is_q_quit: bool) -> bool {
    &&& key.kind != KeyEventKind::Release
    &&& {
        ||| key.modifiers.is_control_only_spec() && (key.code == KeyCode::Char('c') || key.code
            == KeyCode::Char(']'))
        ||| key.modifiers.is_none_spec() && key.code == KeyCode::Char('q') && is_q_quit
    }
}

pub fn is_keypress_quit_event(key: KeyPress, is_q_quit: bool) -> (r: bool)
    ensures
        r == is_quit_spec(key, is_q_quit),
{
    if key.kind == KeyEventKind::Release {
        return false;
    }
    if key.modifiers.is_control_only() {
        match key.code {
            KeyCode::Char('c') | KeyCode::Char(']') => true,
            _ => false,
        }
    } else if key.modifiers.is_none() {
        match key.code {
            KeyCode::Char('q') => is_q_quit,
            _ => false,
        }
    } else {
        false
    }
}

} // verus!
