use vstd::prelude::*;

verus! {

/// The key of a keyboard event, as far as the engine tells keys apart.
#[derive(Debug, Clone, Copy, PartialEq, Eq, Structural)]
pub enum KeyCode {
    Backspace,
    Enter,
    Left,
    Right,
    Up,
    Down,
    Tab,
    Esc,
    Char(char),
    /// Any key that the engine has no use for.
    Other,
}

/// Whether a key went down, stayed down or came up.
#[derive(Debug, Clone, Copy, PartialEq, Eq, Structural)]
pub enum KeyEventKind {
    Press,
    Repeat,
    Release,
}

/// One keyboard event.
#[derive(Debug, Clone, Copy, PartialEq, Eq, Structural)]
pub struct KeyEvent {
    pub code: KeyCode,
    /// Control is held, and no other modifier is.
    pub control: bool,
    pub kind: KeyEventKind,
}

impl KeyEvent {
    /// A plain press of `code`.
    pub fn press(code: KeyCode) -> (key: KeyEvent)
        ensures
            key == (KeyEvent { code, control: false, kind: KeyEventKind::Press }),
    {
        KeyEvent { code, control: false, kind: KeyEventKind::Press }
    }

    /// A press of `code` with Control held.
    pub fn with_control(code: KeyCode) -> (key: KeyEvent)
        ensures
            key == (KeyEvent { code, control: true, kind: KeyEventKind::Press }),
    {
        KeyEvent { code, control: true, kind: KeyEventKind::Press }
    }

    /// The key is `Control` together with one of the two letters that clear a line.
    pub open spec fn spec_clears_line(self) -> bool {
        self.control && (self.code == KeyCode::Char('u') || self.code == KeyCode::Char('h'))
    }

    #[verifier::when_used_as_spec(spec_clears_line)]
    pub fn clears_line(self) -> (b: bool)
        ensures
            b == self.spec_clears_line(),
    {
        self.control && match self.code {
            KeyCode::Char(c) => c == 'u' || c == 'h',
            _ => false,
        }
    }
}

} // verus!
