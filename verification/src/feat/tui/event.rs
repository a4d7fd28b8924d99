//! What the terminal reports, and what the interface makes of it.

use vstd::prelude::*;

verus! {

/// A key of the keyboard.
#[derive(Debug, Clone, Copy, Hash, PartialEq, Eq, Structural)]
pub enum KeyCode {
    Backspace,
    Enter,
    Left,
    Right,
    Up,
    Down,
    Home,
    End,
    PageUp,
    PageDown,
    Tab,
    BackTab,
    Delete,
    Insert,
    F(u8),
    Char(char),
    Null,
    Esc,
    CapsLock,
    ScrollLock,
    NumLock,
    PrintScreen,
    Pause,
    Menu,
    KeypadBegin,
    Media,
    Modifier,
}

/// The modifier keys that are held down with a key or a mouse button.
#[derive(Debug, Clone, Copy, Hash, PartialEq, Eq, Structural)]
pub struct KeyModifiers {
    pub shift: bool,
    pub control: bool,
    pub alt: bool,
    pub logo: bool,
    pub hyper: bool,
    pub meta: bool,
}

impl KeyModifiers {
    /// Whether every modifier of `other` is also one of these.
    pub open spec fn includes(self, other: KeyModifiers) -> bool {
        &&& other.shift ==> self.shift
        &&& other.control ==> self.control
        &&& other.alt ==> self.alt
        &&& other.logo ==> self.logo
        &&& other.hyper ==> self.hyper
        &&& other.meta ==> self.meta
    }

    /// No modifier.
    pub open spec fn no_modifier() -> KeyModifiers {
        KeyModifiers {
            shift: false,
            control: false,
            alt: false,
            logo: false,
            hyper: false,
            meta: false,
        }
    }

    /// No modifier.
    pub fn none() -> (r: KeyModifiers)
        ensures
            r == KeyModifiers::no_modifier(),
    {
        KeyModifiers {
            shift: false,
            control: false,
            alt: false,
            logo: false,
            hyper: false,
            meta: false,
        }
    }

    /// The shift key alone.
    pub fn shift() -> (r: KeyModifiers)
        ensures
            r == (KeyModifiers { shift: true, ..KeyModifiers::no_modifier() }),
    {
        KeyModifiers {
            shift: true,
            control: false,
            alt: false,
            logo: false,
            hyper: false,
            meta: false,
        }
    }

    /// The control key alone.
    pub fn control() -> (r: KeyModifiers)
        ensures
            r == (KeyModifiers { control: true, ..KeyModifiers::no_modifier() }),
    {
        KeyModifiers {
            shift: false,
            control: true,
            alt: false,
            logo: false,
            hyper: false,
            meta: false,
        }
    }

    /// The alt key alone.
    pub fn alt() -> (r: KeyModifiers)
        ensures
            r == (KeyModifiers { alt: true, ..KeyModifiers::no_modifier() }),
    {
        KeyModifiers {
            shift: false,
            control: false,
            alt: true,
            logo: false,
            hyper: false,
            meta: false,
        }
    }

    /// Whether every modifier of `other` is also one of these.
    pub fn contains(&self, other: KeyModifiers) -> (r: bool)
        ensures
            r == self.includes(other),
    {
        (!other.shift || self.shift) && (!other.control || self.control) && (!other.alt
            || self.alt) && (!other.logo || self.logo) && (!other.hyper || self.hyper) && (
        !other.meta || self.meta)
    }
}

/// Whether a key went down, is held, or came up.
#[derive(Debug, Clone, Copy, Hash, PartialEq, Eq, Structural)]
pub enum KeyEventKind {
    Press,
    Repeat,
    Release,
}

/// A key with the modifiers held and what happened to it.
#[derive(Debug, Clone, Copy, Hash, PartialEq, Eq, Structural)]
pub struct KeyEvent {
    pub code: KeyCode,
    pub modifiers: KeyModifiers,
    pub kind: KeyEventKind,
}

impl KeyEvent {
    /// The press of a key with modifiers.
    pub fn new(code: KeyCode, modifiers: KeyModifiers) -> (r: KeyEvent)
        ensures
            r == (KeyEvent { code, modifiers, kind: KeyEventKind::Press }),
    {
        KeyEvent { code, modifiers, kind: KeyEventKind::Press }
    }
}

/// A button of the mouse.
#[derive(Debug, Clone, Copy, Hash, PartialEq, Eq, Structural)]
pub enum MouseButton {
    Left,
    Right,
    Middle,
}

/// What the mouse did.
#[derive(Debug, Clone, Copy, Hash, PartialEq, Eq, Structural)]
pub enum MouseEventKind {
    Down(MouseButton),
    Up(MouseButton),
    Drag(MouseButton),
    Moved,
    ScrollDown,
    ScrollUp,
    ScrollLeft,
    ScrollRight,
}

/// What the mouse did, where, and with which modifiers held.
#[derive(Debug, Clone, Copy, Hash, PartialEq, Eq, Structural)]
pub struct MouseEvent {
    pub kind: MouseEventKind,
    pub column: u16,
    pub row: u16,
    pub modifiers: KeyModifiers,
}

/// Events that can occur in the terminal user interface.
///
/// This enum represents all possible events that the TUI can handle,
/// including user input (keyboard, mouse), terminal events (resize, focus),
/// and internal timing events (tick, render).
#[derive(Debug, Clone, PartialEq, Eq)]
pub enum Event {
    /// Initial event sent when the TUI starts
    Init,
    /// Quit event, typically triggered by user request
    Quit,
    /// Error event, sent when an error occurs
    Error,
    /// Closed event, sent when the TUI is closed
    Closed,
    /// Tick event, sent periodically at the configured tick rate
    Tick,
    /// Render event, sent periodically at the configured frame rate
    Render,
    /// Focus gained event, sent when the terminal gains focus
    FocusGained,
    /// Focus lost event, sent when the terminal loses focus
    FocusLost,
    /// Paste event, sent when text is pasted into the terminal
    /// Contains the pasted text
    Paste(String),
    /// Key event, sent when a key is pressed
    /// Contains the key event details
    Key(KeyEvent),
    /// Mouse event, sent when mouse interaction occurs
    /// Contains the mouse event details
    Mouse(MouseEvent),
    /// Resize event, sent when the terminal is resized
    /// Contains the new width and height
    Resize(u16, u16),
}

impl Event {
    /// The key of the event, where the event is the press of a key.
    pub open spec fn pressed_key(self) -> Option<KeyEvent> {
        match self {
            Event::Key(key) => if key.kind == KeyEventKind::Press {
                Some(key)
            } else {
                None
            },
            _ => None,
        }
    }

    /// The code of the key that the event is the press of.
    pub open spec fn pressed_code(self) -> Option<KeyCode> {
        match self.pressed_key() {
            Some(key) => Some(key.code),
            None => None,
        }
    }

    /// The modifiers held while the key of the event was pressed.
    pub open spec fn pressed_modifiers(self) -> Option<KeyModifiers> {
        match self.pressed_key() {
            Some(key) => Some(key.modifiers),
            None => None,
        }
    }

    /// Whether the interface is drawn anew when the event arrives: it is
    /// for a frame that is due, a key, the mouse, and a new size.
    pub open spec fn is_visual(self) -> bool {
        self is Render || self is Key || self is Mouse || self is Resize
    }

    /// Whether the interface is drawn anew when the event arrives.
    pub fn needs_render(&self) -> (r: bool)
        ensures
            r == self.is_visual(),
    {
        match self {
            Event::Render | Event::Key(_) | Event::Mouse(_) | Event::Resize(_, _) => true,
            _ => false,
        }
    }
}

/// Helper methods on [`Event`].
pub trait EventExt {
    /// The key of the event, where the event is the press of a key.
    spec fn key_press(&self) -> Option<KeyEvent>;

    /// Returns `true` if the event is a key press for the specified character.
    fn is_char(&self, ch: char) -> (r: bool)
        ensures
            r == (self.key_press() matches Some(key) && key.code == KeyCode::Char(ch)),
    ;

    /// Returns `true` if the event is a key press for the specified key code.
    fn is_code(&self, code: KeyCode) -> (r: bool)
        ensures
            r == (self.key_press() matches Some(key) && key.code == code),
    ;

    /// Returns `Some` if the event is a keypress containing a keycode.
    fn keypress(&self) -> (r: Option<KeyCode>)
        ensures
            r == match self.key_press() {
                Some(key) => Some(key.code),
                None => None,
            },
    ;

    /// Returns the modifiers held during a keypress.
    fn modifiers(&self) -> (r: Option<KeyModifiers>)
        ensures
            r == match self.key_press() {
                Some(key) => Some(key.modifiers),
                None => None,
            },
    ;
}

impl EventExt for Event {
    open spec fn key_press(&self) -> Option<KeyEvent> {
        self.pressed_key()
    }

    fn is_char(&self, ch: char) -> (r: bool) {
        self.is_code(KeyCode::Char(ch))
    }

    fn is_code(&self, code: KeyCode) -> (r: bool) {
        match self {
            Event::Key(key) => key.kind == KeyEventKind::Press && key.code == code,
            _ => false,
        }
    }

    fn keypress(&self) -> (r: Option<KeyCode>) {
        match self {
            Event::Key(key) => if key.kind == KeyEventKind::Press {
                Some(key.code)
            } else {
                None
            },
            _ => None,
        }
    }

    fn modifiers(&self) -> (r: Option<KeyModifiers>) {
        match self {
            Event::Key(key) => if key.kind == KeyEventKind::Press {
                Some(key.modifiers)
            } else {
                None
            },
            _ => None,
        }
    }
}

} // verus!
