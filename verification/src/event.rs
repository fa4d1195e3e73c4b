use vstd::prelude::*;

verus! {

/// The key of a key event, as the terminal reports it.
#[derive(Debug, Clone, Copy, PartialEq, Eq, Structural)]
pub enum KeyCode {
    Char(char),
    F(u8),
    Backspace,
    Enter,
    Left,
    Right,
    Up,
    Down,
    Tab,
    Delete,
    Home,
    End,
    PageUp,
    PageDown,
    Esc,
    /// Any key that has no name of its own here.
    Other,
}

/// Whether a key went down, is held, or came up.
#[derive(Debug, Clone, Copy, PartialEq, Eq, Structural)]
pub enum KeyEventKind {
    Press,
    Repeat,
    Release,
}

/// One key event with its modifiers.
#[derive(Debug, Clone, Copy, PartialEq, Eq, Structural)]
pub struct KeyEvent {
    pub code: KeyCode,
    pub ctrl: bool,
    pub alt: bool,
    pub shift: bool,
    pub kind: KeyEventKind,
}

/// What the mouse did.
#[derive(Debug, Clone, Copy, PartialEq, Eq, Structural)]
pub enum MouseKind {
    ScrollDown,
    ScrollUp,
    Other,
}

/// One raw terminal event.
#[derive(Debug, Clone, Copy, PartialEq, Eq, Structural)]
pub enum ComponentEvent {
    Key(KeyEvent),
    Mouse { kind: MouseKind, ctrl: bool, alt: bool, shift: bool },
    /// A resize, a paste, a focus change.
    Other,
}

/// The key of an editing input.
#[derive(Debug, Clone, Copy, PartialEq, Eq, Structural)]
pub enum InputKey {
    Char(char),
    F(u8),
    Backspace,
    Enter,
    Left,
    Right,
    Up,
    Down,
    Tab,
    Delete,
    Home,
    End,
    PageUp,
    PageDown,
    Esc,
    MouseScrollDown,
    MouseScrollUp,
    /// No key at all; an editor ignores it.
    Null,
}

/// One editing input: a key and the modifiers held with it.
#[derive(Debug, Clone, Copy, PartialEq, Eq, Structural)]
pub struct Input {
    pub key: InputKey,
    pub ctrl: bool,
    pub alt: bool,
    pub shift: bool,
}

impl KeyEvent {
    /// A key pressed with no modifier.
    pub fn press(code: KeyCode) -> (out: KeyEvent)
        ensures
            out == (KeyEvent { code, ctrl: false, alt: false, shift: false, kind: KeyEventKind::Press }),
    {
        KeyEvent { code, ctrl: false, alt: false, shift: false, kind: KeyEventKind::Press }
    }
}

impl KeyCode {
    pub open spec fn key_spec(self) -> InputKey {
        match self {
            KeyCode::Char(c) => InputKey::Char(c),
            KeyCode::F(n) => InputKey::F(n),
            KeyCode::Backspace => InputKey::Backspace,
            KeyCode::Enter => InputKey::Enter,
            KeyCode::Left => InputKey::Left,
            KeyCode::Right => InputKey::Right,
            KeyCode::Up => InputKey::Up,
            KeyCode::Down => InputKey::Down,
            KeyCode::Tab => InputKey::Tab,
            KeyCode::Delete => InputKey::Delete,
            KeyCode::Home => InputKey::Home,
            KeyCode::End => InputKey::End,
            KeyCode::PageUp => InputKey::PageUp,
            KeyCode::PageDown => InputKey::PageDown,
            KeyCode::Esc => InputKey::Esc,
            KeyCode::Other => InputKey::Null,
        }
    }

    /// The editing key that this key code stands for.
    pub fn key(self) -> (out: InputKey)
        ensures
            out == self.key_spec(),
    {
        match self {
            KeyCode::Char(c) => InputKey::Char(c),
            KeyCode::F(n) => InputKey::F(n),
            KeyCode::Backspace => InputKey::Backspace,
            KeyCode::Enter => InputKey::Enter,
            KeyCode::Left => InputKey::Left,
            KeyCode::Right => InputKey::Right,
            KeyCode::Up => InputKey::Up,
            KeyCode::Down => InputKey::Down,
            KeyCode::Tab => InputKey::Tab,
            KeyCode::Delete => InputKey::Delete,
            KeyCode::Home => InputKey::Home,
            KeyCode::End => InputKey::End,
            KeyCode::PageUp => InputKey::PageUp,
            KeyCode::PageDown => InputKey::PageDown,
            KeyCode::Esc => InputKey::Esc,
            KeyCode::Other => InputKey::Null,
        }
    }
}

impl Default for Input {
    fn default() -> (out: Input)
        ensures
            out == Input::null(),
    {
        Input { key: InputKey::Null, ctrl: false, alt: false, shift: false }
    }
}

impl Input {
    /// The input that an editor ignores.
    pub open spec fn null() -> Input {
        Input { key: InputKey::Null, ctrl: false, alt: false, shift: false }
    }

    /// The editing input that a raw event stands for: a key with its modifiers, a
    /// scroll of the mouse, and the null input for a released key and any other event.
    pub open spec fn of_event(evt: ComponentEvent) -> Input {
        match evt {
            ComponentEvent::Key(key) => if key.kind == KeyEventKind::Release {
                Input::null()
            } else {
                Input { key: key.code.key_spec(), ctrl: key.ctrl, alt: key.alt, shift: key.shift }
            },
            ComponentEvent::Mouse { kind, ctrl, alt, shift } => Input {
                key: match kind {
                    MouseKind::ScrollDown => InputKey::MouseScrollDown,
                    MouseKind::ScrollUp => InputKey::MouseScrollUp,
                    MouseKind::Other => InputKey::Null,
                },
                ctrl,
                alt,
                shift,
            },
            ComponentEvent::Other => Input::null(),
        }
    }

    pub fn from_event(evt: ComponentEvent) -> (out: Input)
        ensures
            out == Input::of_event(evt),
    {
        match evt {
            ComponentEvent::Key(key) => {
                match key.kind {
                    KeyEventKind::Release => Input::default(),
                    _ => Input { key: key.code.key(), ctrl: key.ctrl, alt: key.alt, shift: key.shift },
                }
            },
            ComponentEvent::Mouse { kind, ctrl, alt, shift } => {
                let key = match kind {
                    MouseKind::ScrollDown => InputKey::MouseScrollDown,
                    MouseKind::ScrollUp => InputKey::MouseScrollUp,
                    MouseKind::Other => InputKey::Null,
                };
                Input { key, ctrl, alt, shift }
            },
            ComponentEvent::Other => Input::default(),
        }
    }

    /// A key typed with no modifier.
    pub fn plain(key: InputKey) -> (out: Input)
        ensures
            out == (Input { key, ctrl: false, alt: false, shift: false }),
    {
        Input { key, ctrl: false, alt: false, shift: false }
    }
}

} // verus!
