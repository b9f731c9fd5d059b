//! Keys as the loader's input sources report them.
use vstd::prelude::*;

use crate::error::RrubError;

verus! {

/// C0 control characters the shell understands.
#[non_exhaustive]
pub enum ControlChar {
    Backspace,
    Tab,
    LineFeed,
    VerticalTab,
    FormFeed,
    Return,
    EscapePrefix,
}

/// Keys that produce no character.
#[non_exhaustive]
pub enum SpecialKey {
    Up,
    Down,
    Right,
    Left,
    Home,
    End,
    Insert,
    Delete,
    PageUp,
    PageDown,
    F1,
    F2,
    F3,
    F4,
    F5,
    F6,
    F7,
    F8,
    F9,
    F10,
    F11,
    F12,
    F13,
    F14,
    F15,
    F16,
    F17,
    F18,
    F19,
    F20,
    F21,
    F22,
    F23,
    F24,
    Escape,
}

pub enum Key {
    Printable(char),
    ControlChar(ControlChar),
    SpecialKey(SpecialKey),
}

/// A source of keys.
pub trait InputBackend: Sized {
    fn init_input_backend() -> Result<Self, RrubError>;

    fn read_key(&self) -> Option<Key>;
}

pub struct InputHandle<B: InputBackend> {
    backend: B,
}

/// The firmware's text input; it reports no key yet.
pub struct UefiInput {}

impl InputBackend for UefiInput {
    fn init_input_backend() -> (r: Result<Self, RrubError>) {
        Ok(UefiInput {})
    }

    fn read_key(&self) -> (r: Option<Key>) {
        None
    }
}

} // verus!
