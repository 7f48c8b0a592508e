//! Shortcut bindings and the key events delivered for them.

use vstd::prelude::*;

verus! {

/// The modifier keys that must be held together with the key of a binding.
#[derive(Clone, Copy, Debug, PartialEq, Eq, Hash, Structural)]
pub struct Modifiers {
    pub control: bool,
    pub shift: bool,
    pub alt: bool,
    pub meta: bool,
}

/// A physical key that a binding can name.
#[derive(Clone, Copy, Debug, PartialEq, Eq, Hash, Structural)]
pub enum Key {
    A, B, C, D, E, F, G, H, I, J, K, L, M,
    N, O, P, Q, R, S, T, U, V, W, X, Y, Z,
    Digit0, Digit1, Digit2, Digit3, Digit4,
    Digit5, Digit6, Digit7, Digit8, Digit9,
    F1, F2, F3, F4, F5, F6, F7, F8, F9, F10, F11, F12,
}

/// A modifier set paired with a key. A binding never changes once built.
#[derive(Clone, Copy, Debug, PartialEq, Eq, Hash, Structural)]
pub struct Binding {
    pub modifiers: Modifiers,
    pub key: Key,
}

/// Whether a key event reports the combination going down or coming up.
#[derive(Clone, Copy, Debug, PartialEq, Eq, Hash, Structural)]
pub enum KeyState {
    Pressed,
    Released,
}

/// One notification from the shortcut facility: which binding, and in which
/// state.
#[derive(Clone, Copy, Debug, PartialEq, Eq, Hash, Structural)]
pub struct ShortcutEvent {
    pub binding: Binding,
    pub state: KeyState,
}

impl Modifiers {
    /// The empty modifier set.
    pub fn none() -> (m: Modifiers)
        ensures
            m == (Modifiers { control: false, shift: false, alt: false, meta: false }),
    {
        Modifiers { control: false, shift: false, alt: false, meta: false }
    }

    /// Control and Shift held together, nothing else.
    pub fn control_shift() -> (m: Modifiers)
        ensures
            m == (Modifiers { control: true, shift: true, alt: false, meta: false }),
    {
        Modifiers { control: true, shift: true, alt: false, meta: false }
    }
}

impl Binding {
    /// Pairs `modifiers` with `key`.
    pub fn new(modifiers: Modifiers, key: Key) -> (b: Binding)
        ensures
            b.modifiers == modifiers,
            b.key == key,
    {
        Binding { modifiers, key }
    }

    /// Structural equality of two bindings: same modifier set, same key.
    pub fn same_as(&self, other: &Binding) -> (r: bool)
        ensures
            r == (*self == *other),
    {
        self.modifiers.control == other.modifiers.control
            && self.modifiers.shift == other.modifiers.shift
            && self.modifiers.alt == other.modifiers.alt
            && self.modifiers.meta == other.modifiers.meta
            && self.key == other.key
    }
}

impl ShortcutEvent {
    /// The event that reports `binding` going down.
    pub fn pressed(binding: Binding) -> (e: ShortcutEvent)
        ensures
            e == (ShortcutEvent { binding, state: KeyState::Pressed }),
    {
        ShortcutEvent { binding, state: KeyState::Pressed }
    }

    /// The event that reports `binding` coming up again.
    pub fn released(binding: Binding) -> (e: ShortcutEvent)
        ensures
            e == (ShortcutEvent { binding, state: KeyState::Released }),
    {
        ShortcutEvent { binding, state: KeyState::Released }
    }
}

} // verus!
