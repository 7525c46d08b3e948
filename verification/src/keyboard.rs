//! Keys as the window reports them, for the programs that answer hotkeys.

use vstd::prelude::*;

verus! {

/// A key that has a name rather than a character.
#[derive(Debug, Clone, Copy, PartialEq, Eq, Structural)]
pub enum NamedKey {
    Tab,
    Space,
    ArrowUp,
    ArrowDown,
    ArrowLeft,
    ArrowRight,
    /// Any other named key.
    Other,
}

/// A pressed key: a named key, the characters it types, or one that the
/// window could not identify.
#[derive(Debug)]
pub enum Key {
    Named(NamedKey),
    Character(String),
    Unidentified,
}

/// The modifier keys held with a key.
#[derive(Debug, Clone, Copy, PartialEq, Eq, Structural)]
pub struct Modifiers {
    pub shift: bool,
    pub control: bool,
    pub alt: bool,
    pub logo: bool,
}

impl Modifiers {
    /// Whether shift, and no other modifier, is held.
    pub open spec fn only_shift(self) -> bool {
        self.shift && !self.control && !self.alt && !self.logo
    }

    /// Whether shift, and no other modifier, is held.
    pub fn is_only_shift(&self) -> (r: bool)
        ensures
            r == self.only_shift(),
    {
        self.shift && !self.control && !self.alt && !self.logo
    }
}

} // verus!
