//! The display programs' state: what each program remembers between
//! frames, and the stepping rules that move it. Drawing glyphs and
//! driving the hardware happen outside this crate.

use vstd::prelude::*;

use crate::data::Rgb8;
use crate::NUM_LEDS_X;
use crate::NUM_LEDS_Y;

verus! {

/// Per-program state kept between frames.
pub trait ProgramState {

}

/// Blinks a single LED, counted row by row.
pub struct LedN {
    color: Rgb8,
    n: usize,
}

impl LedN {
    /// Blink LED number `n` in `color`.
    pub fn new(n: usize, color: Rgb8) -> (r: LedN)
        ensures
            r.spec_n() == n,
            r.spec_color() == color,
    {
        LedN { n, color }
    }

    /// The configured colour.
    pub fn color(&self) -> (r: &Rgb8)
        ensures
            *r == self.spec_color(),
    {
        &self.color
    }

    /// Change the configured colour.
    pub fn set_color(&mut self, color: Rgb8)
        ensures
            final(self).spec_color() == color,
            final(self).spec_n() == old(self).spec_n(),
    {
        self.color = color;
    }

    /// Which LED blinks.
    pub closed spec fn spec_n(&self) -> usize {
        self.n
    }

    /// The configured colour.
    pub closed spec fn spec_color(&self) -> Rgb8 {
        self.color
    }
}

/// What the blinking-LED program remembers: the phase of the blink.
pub struct LedNState {
    pub is_on: bool,
}

impl ProgramState for LedNState {

}

impl Default for LedNState {
    /// The blink starts dark.
    fn default() -> (r: LedNState)
        ensures
            !r.is_on,
    {
        LedNState { is_on: false }
    }
}

/// Blinks the fixed pixel `(X, Y)`.
pub struct LedXY<const X: usize, const Y: usize> {
    pub is_on: bool,
}

impl<const X: usize, const Y: usize> Default for LedXY<X, Y> {
    /// The blink starts dark.
    fn default() -> (r: LedXY<X, Y>)
        ensures
            !r.is_on,
    {
        LedXY { is_on: false }
    }
}

/// A light running across the matrix, row by row.
pub struct RunningLight {
    color: Rgb8,
}

impl RunningLight {
    /// A running light in `color`.
    pub fn new(color: Rgb8) -> (r: RunningLight)
        ensures
            r.spec_color() == color,
    {
        RunningLight { color }
    }

    /// The configured colour.
    pub closed spec fn spec_color(&self) -> Rgb8 {
        self.color
    }
}

/// Where the running light stands and where it stood one tick ago.
pub struct RunningLightState {
    pub previous: (usize, usize),
    pub x_offset: usize,
    pub y_offset: usize,
}

impl ProgramState for RunningLightState {

}

impl Default for RunningLightState {
    /// The light starts in the top-left corner.
    fn default() -> (r: RunningLightState)
        ensures
            r.previous == (0usize, 0usize),
            r.x_offset == 0,
            r.y_offset == 0,
    {
        RunningLightState { previous: (0, 0), x_offset: 0, y_offset: 0 }
    }
}

impl RunningLightState {
    /// Step one pixel to the right, wrapping to the next row at the end
    /// of a row and to the top row at the bottom of the matrix. The spot
    /// left behind is remembered so it can be switched off.
    pub fn tick(&mut self)
        requires
            old(self).x_offset < NUM_LEDS_X,
            old(self).y_offset < NUM_LEDS_Y,
        ensures
            final(self).previous == (old(self).x_offset, old(self).y_offset),
            final(self).x_offset == (if old(self).x_offset + 1 == NUM_LEDS_X {
                0int
            } else {
                old(self).x_offset + 1
            }),
            final(self).y_offset == (if old(self).x_offset + 1 == NUM_LEDS_X {
                if old(self).y_offset + 1 == NUM_LEDS_Y {
                    0int
                } else {
                    old(self).y_offset + 1
                }
            } else {
                old(self).y_offset as int
            }),
            final(self).x_offset < NUM_LEDS_X,
            final(self).y_offset < NUM_LEDS_Y,
    {
        self.previous = (self.x_offset, self.y_offset);
        self.x_offset = self.x_offset + 1;

        if self.x_offset == NUM_LEDS_X {
            self.x_offset = 0;
            self.y_offset = self.y_offset + 1;
        }

        if self.y_offset == NUM_LEDS_Y {
            self.y_offset = 0;
        }
    }
}

/// Shows for how long the display has been running, as minutes and
/// seconds.
pub struct Duration<CP> {
    color: CP,
    colored_chars: bool,
}

impl<CP> Duration<CP> {
    /// A duration display drawing with `color`: one colour per character
    /// when `colored_chars` is set, one colour for the whole text
    /// otherwise.
    pub fn new(color: CP, colored_chars: bool) -> (r: Duration<CP>)
        ensures
            r.spec_color() == color,
            r.spec_colored_chars() == colored_chars,
    {
        Duration { color, colored_chars }
    }

    /// The colour provider the display draws with.
    pub closed spec fn spec_color(&self) -> CP {
        self.color
    }

    /// Whether each character takes its own colour.
    pub closed spec fn spec_colored_chars(&self) -> bool {
        self.colored_chars
    }
}

/// A single character to draw.
pub struct Ascii {
    chr: char,
}

impl Ascii {
    /// The character `chr`.
    pub fn new(chr: char) -> (r: Ascii)
        ensures
            r.spec_chr() == chr,
    {
        Ascii { chr }
    }

    /// The character held.
    pub closed spec fn spec_chr(&self) -> char {
        self.chr
    }
}

/// The minutes and seconds a duration of `secs` seconds shows as, the
/// form the duration display draws. Durations are wrapped by the caller
/// before the minute count would need three digits.
pub fn duration_parts(secs: u64) -> (r: (u8, u8))
    requires
        secs < 99 * 60 + 59,
    ensures
        r.0 == secs / 60,
        r.1 == secs % 60,
{
    ((secs / 60) as u8, (secs % 60) as u8)
}

} // verus!
