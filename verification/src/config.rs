//! Plain configuration values: the enumerations the configuration file
//! chooses from. Reading the file and parsing it happen outside this
//! crate; only the values themselves and what they mean live here.

use vstd::prelude::*;

verus! {

/// Whether the display starts switched on or off.
#[derive(Clone, Copy, Debug, PartialEq, Eq, Structural)]
pub enum Bootstate {
    On,
    Off,
}

impl Bootstate {
    /// True exactly for the switched-on boot state.
    pub fn into_bool(self) -> (r: bool)
        ensures
            r == (self == Bootstate::On),
    {
        match self {
            Bootstate::On => true,
            Bootstate::Off => false,
        }
    }
}

/// The monospace font the clock face is drawn with.
#[derive(Clone, Copy, Debug, PartialEq, Eq, Structural)]
pub enum Font {
    Font5x8,
    Font6x9,
    Font6x10,
}

impl Font {
    /// Width in pixels of one glyph of this font.
    pub fn glyph_width(self) -> (r: u8)
        ensures
            r == (match self {
                Font::Font5x8 => 5u8,
                Font::Font6x9 => 6u8,
                Font::Font6x10 => 6u8,
            }),
    {
        match self {
            Font::Font5x8 => 5,
            Font::Font6x9 => 6,
            Font::Font6x10 => 6,
        }
    }
}

/// What the program was asked to do.
#[derive(Clone, Copy, Debug, PartialEq, Eq, Structural)]
pub enum Command {
    /// Run the display and its session.
    Run,
    /// Only check that the configuration file parses.
    VerifyConfig,
}

} // verus!
