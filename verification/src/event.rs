//! Terminal events as plain values.

use vstd::prelude::*;

verus! {

/// A key of the media controls.
#[derive(Clone, Copy, Debug, PartialEq, Eq, Structural)]
pub enum MediaKeyCode {
    Play,
    Pause,
    PlayPause,
    Reverse,
    Stop,
    FastForward,
    Rewind,
    TrackNext,
    TrackPrevious,
    Record,
    LowerVolume,
    RaiseVolume,
    MuteVolume,
}

/// A modifier key that is itself pressed or released.
#[derive(Clone, Copy, Debug, PartialEq, Eq, Structural)]
pub enum ModifierKeyCode {
    LeftShift,
    LeftControl,
    LeftAlt,
    LeftSuper,
    LeftHyper,
    LeftMeta,
    RightShift,
    RightControl,
    RightAlt,
    RightSuper,
    RightHyper,
    RightMeta,
    IsoLevel3Shift,
    IsoLevel5Shift,
}

/// The key of a key event.
#[derive(Clone, Copy, Debug, PartialEq, Eq, Structural)]
pub enum KeyCode {
    Backspace,
    Enter,
    Left,
    Right,
    Up,
    Down,
    Home,
    End,
    PageUp,
    PageDown,
    Tab,
    BackTab,
    Delete,
    Insert,
    F(u8),
    Char(char),
    Null,
    Esc,
    CapsLock,
    ScrollLock,
    NumLock,
    PrintScreen,
    Pause,
    Menu,
    KeypadBegin,
    Media(MediaKeyCode),
    Modifier(ModifierKeyCode),
}

/// What happened to the key of a key event.
#[derive(Clone, Copy, Debug, PartialEq, Eq, Structural)]
pub enum KeyEventKind {
    Press,
    Repeat,
    Release,
}

/// A key event. `modifiers` and `state` are the bits of crossterm's
/// `KeyModifiers` and `KeyEventState`.
#[derive(Clone, Copy, Debug, PartialEq, Eq, Structural)]
pub struct KeyEvent {
    pub code: KeyCode,
    pub modifiers: u8,
    pub kind: KeyEventKind,
    pub state: u8,
}

/// A button of the mouse.
#[derive(Clone, Copy, Debug, PartialEq, Eq, Structural)]
pub enum MouseButton {
    Left,
    Right,
    Middle,
}

/// What the mouse did.
#[derive(Clone, Copy, Debug, PartialEq, Eq, Structural)]
pub enum MouseEventKind {
    Down(MouseButton),
    Up(MouseButton),
    Drag(MouseButton),
    Moved,
    ScrollDown,
    ScrollUp,
    ScrollLeft,
    ScrollRight,
}

/// A mouse event. `modifiers` are the bits of crossterm's `KeyModifiers`.
#[derive(Clone, Copy, Debug, PartialEq, Eq, Structural)]
pub struct MouseEvent {
    pub kind: MouseEventKind,
    pub column: u16,
    pub row: u16,
    pub modifiers: u8,
}

/// Everything that a terminal reports.
#[derive(Debug, PartialEq, Eq)]
pub enum Event {
    FocusGained,
    FocusLost,
    Key(KeyEvent),
    Mouse(MouseEvent),
    Paste(String),
    Resize(u16, u16),
}

/// The events that are passed on to the game.
#[derive(Clone, Copy, Debug, PartialEq, Eq, Structural)]
pub enum InputEvent {
    Key(KeyEvent),
    Mouse(MouseEvent),
}

/// Whether `modifiers` hold the control key, the second bit of crossterm's
/// `KeyModifiers`.
pub open spec fn holds_control(modifiers: u8) -> bool {
    modifiers & 2 == 2
}

/// Whether a key event is the exit command, Ctrl+C.
pub open spec fn is_exit_command(key: KeyEvent) -> bool {
    key.code == KeyCode::Char('c') && holds_control(key.modifiers)
}

/// Calls crossterm's `KeyModifiers::contains` for `KeyModifiers::CONTROL`. The
/// contract claims that it answers whether the bit of `CONTROL`, the second
/// one, is set in `modifiers`, whatever the other bits are.
#[verifier::external_body]
fn modifiers_contain_control(modifiers: u8) -> (held: bool)
    ensures
        held == holds_control(modifiers),
{
    crossterm::event::KeyModifiers::from_bits_retain(modifiers).contains(
        crossterm::event::KeyModifiers::CONTROL,
    )
}

impl KeyEvent {
    /// Whether the key event is the exit command, Ctrl+C.
    pub fn is_exit_command(&self) -> (exit: bool)
        ensures
            exit == is_exit_command(*self),
    {
        match self.code {
            KeyCode::Char(c) => c == 'c' && modifiers_contain_control(self.modifiers),
            _ => false,
        }
    }
}

} // verus!
