use vstd::prelude::*;

verus! {

/// An arrow key.
#[derive(Clone, Copy, Debug, PartialEq, Eq, Structural, Hash)]
pub enum ArrowKey {
    Left,
    Right,
    Up,
    Down,
}

/// A logical key, independent of any platform's key codes.
#[derive(Clone, Debug, PartialEq, Eq, Hash)]
pub enum Key {
    Tab,
    Enter,
    Space,
    Escape,
    Arrow(ArrowKey),
    Home,
    End,
    PageUp,
    PageDown,
    Backspace,
    Delete,
    Character(String),
    Unidentified,
}

/// Whether a key went down or came up.
#[derive(Clone, Copy, Debug, PartialEq, Eq, Structural, Hash)]
pub enum KeyState {
    Pressed,
    Released,
}

/// The modifier keys held during a key event.
#[derive(Clone, Copy, Debug, PartialEq, Eq, Structural, Hash)]
pub struct KeyModifiers {
    pub shift: bool,
    pub control: bool,
    pub alt: bool,
    pub meta: bool,
}

impl Default for KeyModifiers {
    fn default() -> (m: Self)
        ensures
            !m.shift && !m.control && !m.alt && !m.meta,
    {
        KeyModifiers { shift: false, control: false, alt: false, meta: false }
    }
}

/// One keyboard event as widgets receive it.
#[derive(Clone, Debug, PartialEq, Eq)]
pub struct KeyboardEvent {
    pub key: Key,
    pub state: KeyState,
    pub modifiers: KeyModifiers,
    pub repeat: bool,
}

/// A first, unrepeated press of the key with no modifiers held.
pub open spec fn plain_press(event: KeyboardEvent, key: Key) -> bool {
    &&& event.key == key
    &&& event.state == KeyState::Pressed
    &&& !event.modifiers.shift && !event.modifiers.control
    &&& !event.modifiers.alt && !event.modifiers.meta
    &&& !event.repeat
}

impl KeyboardEvent {
    /// A first, unrepeated press of `key` with no modifiers held.
    pub fn pressed(key: Key) -> (event: Self)
        ensures
            plain_press(event, key),
    {
        KeyboardEvent {
            key,
            state: KeyState::Pressed,
            modifiers: KeyModifiers::default(),
            repeat: false,
        }
    }

    /// Whether this event presses (or repeats) a key down.
    pub fn is_pressed(&self) -> (pressed: bool)
        ensures
            pressed == (self.state == KeyState::Pressed),
    {
        self.state == KeyState::Pressed
    }
}

} // verus!
