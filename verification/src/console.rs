//! The console event and character-cell values that console calls exchange.
//! Reading and writing the console is the platform's business; the values
//! themselves are plain data and live here.

use vstd::prelude::*;

verus! {

/// One console input event, as the input queue reports it.
#[derive(Copy, Clone, Debug)]
pub enum Input {
    Key {
        key_down: bool,
        repeat_count: u16,
        key_code: u16,
        scan_code: u16,
        wide_char: u16,
        control_key_state: u32,
    },
    Mouse {
        position: (i16, i16),
        button_state: u32,
        control_key_state: u32,
        event_flags: u32,
    },
    WindowBufferSize(i16, i16),
    Menu(u32),
    Focus(bool),
}

/// One character cell of a console screen buffer: a wide character and its
/// attribute flags.
#[derive(Copy, Clone, Debug)]
pub struct CharInfo {
    character: u16,
    attributes: u16,
}

impl CharInfo {
    pub closed spec fn spec_character(self) -> u16 {
        self.character
    }

    pub closed spec fn spec_attributes(self) -> u16 {
        self.attributes
    }

    /// The cell showing `ch` with the attribute flags `attr`.
    pub fn new(ch: u16, attr: u16) -> (r: CharInfo)
        ensures
            r.spec_character() == ch,
            r.spec_attributes() == attr,
    {
        CharInfo { character: ch, attributes: attr }
    }

    pub fn character(&self) -> (r: u16)
        ensures
            r == self.spec_character(),
    {
        self.character
    }

    pub fn attributes(&self) -> (r: u16)
        ensures
            r == self.spec_attributes(),
    {
        self.attributes
    }
}

} // verus!
