//! Which of the game's keys are held down.

use vstd::prelude::*;

verus! {

/// A key of the keyboard, as far as the game tells keys apart.
#[derive(Clone, Copy, PartialEq, Eq, Debug, Structural)]
pub enum Key {
    ArrowLeft,
    ArrowRight,
    Shift,
    Tab,
    Enter,
    /// Any key that the game does not bind.
    Other,
}

/// One flag for each key that the game binds: set while the key is held.
#[derive(Clone, Copy, PartialEq, Eq, Debug, Structural)]
pub struct KeyStates {
    pub left: bool,
    pub right: bool,
    pub shift: bool,
    pub tab: bool,
    pub enter: bool,
}

impl KeyStates {
    /// No key is held.
    pub open spec fn released() -> KeyStates {
        KeyStates { left: false, right: false, shift: false, tab: false, enter: false }
    }

    /// `self` after `key` went down (`pressed`) or up: the flag of a bound key
    /// takes the value of `pressed`, and an unbound key changes nothing.
    pub open spec fn with_key(self, key: Key, pressed: bool) -> KeyStates {
        match key {
            Key::ArrowLeft => KeyStates { left: pressed, ..self },
            Key::ArrowRight => KeyStates { right: pressed, ..self },
            Key::Shift => KeyStates { shift: pressed, ..self },
            Key::Tab => KeyStates { tab: pressed, ..self },
            Key::Enter => KeyStates { enter: pressed, ..self },
            Key::Other => self,
        }
    }

    /// A snapshot in which no key is held.
    pub fn new() -> (k: Self)
        ensures
            k == KeyStates::released(),
    {
        Self { left: false, right: false, shift: false, tab: false, enter: false }
    }

    /// Records that `key` went down (`pressed`) or up.
    pub fn update_from_key(&mut self, key: Key, pressed: bool)
        ensures
            *final(self) == old(self).with_key(key, pressed),
    {
        match key {
            Key::ArrowLeft => self.left = pressed,
            Key::ArrowRight => self.right = pressed,
            Key::Shift => self.shift = pressed,
            Key::Tab => self.tab = pressed,
            Key::Enter => self.enter = pressed,
            Key::Other => {},
        }
    }
}

impl Default for KeyStates {
    fn default() -> (k: Self)
        ensures
            k == KeyStates::released(),
    {
        KeyStates::new()
    }
}

} // verus!
