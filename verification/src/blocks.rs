//! Rectangular drawing blocks: small pieces of content that render
//! themselves into a pixel buffer.

use vstd::prelude::*;

use crate::data::Buffer;
use crate::data::Rgb8;
use crate::data::set_index;

verus! {

/// Something that can draw itself into a pixel buffer.
pub trait Block {
    /// Draw into `buffer`, which keeps its dimensions.
    fn render_to_buffer<const X: usize, const Y: usize>(&mut self, buffer: &mut Buffer<X, Y>)
        requires
            old(buffer).wf(),
            X * Y <= usize::MAX,
        ensures
            final(buffer).wf(),
    ;
}

/// Clears the whole buffer to black.
pub struct Clear;

impl Block for Clear {
    fn render_to_buffer<const X: usize, const Y: usize>(&mut self, buffer: &mut Buffer<X, Y>) {
        buffer.clear();
    }
}

/// Draws a one-pixel border around the whole display.
pub struct BoundingBox(());

impl BoundingBox {
    /// A border block.
    pub fn new() -> (r: BoundingBox) {
        BoundingBox(())
    }
}

/// A single pixel that can blink.
pub struct XY {
    pub x: usize,
    pub y: usize,
    pub is_on: bool,
    pub color: Rgb8,
}

impl XY {
    /// A pixel at `(x, y)` in the given colour, initially dark.
    pub fn new(x: usize, y: usize, color: Rgb8) -> (r: XY)
        ensures
            r.x == x,
            r.y == y,
            !r.is_on,
            r.color == color,
    {
        XY { x, y, is_on: false, color }
    }

    /// The configured colour.
    pub fn color(&self) -> (r: Rgb8)
        ensures
            r == self.color,
    {
        self.color
    }

    /// Change the configured colour.
    pub fn set_color(&mut self, color: Rgb8)
        ensures
            final(self).color == color,
            final(self).x == old(self).x,
            final(self).y == old(self).y,
            final(self).is_on == old(self).is_on,
    {
        self.color = color;
    }

    /// Draw the pixel: dark in its on phase, coloured otherwise.
    pub fn render<const X: usize, const Y: usize>(&self, buffer: &mut Buffer<X, Y>)
        requires
            old(buffer).wf(),
            self.x < X,
            self.y < Y,
            X * Y <= usize::MAX,
        ensures
            final(buffer).wf(),
            final(buffer)@ == old(buffer)@.update(
                set_index::<X, Y>(self.x as int, self.y as int),
                if self.is_on {
                    Rgb8 { r: 0, g: 0, b: 0 }
                } else {
                    self.color
                },
            ),
    {
        let c = if self.is_on {
            Rgb8 { r: 0, g: 0, b: 0 }
        } else {
            self.color
        };
        buffer.set(self.x, self.y, c);
    }
}

/// A run of text in one colour at an offset. Drawing glyphs is the glyph
/// table's job elsewhere; this block carries what is to be drawn.
pub struct Text {
    pub text: Vec<u8>,
    pub color: Rgb8,
    pub offset: (usize, usize),
}

impl Text {
    /// Text at `offset` in `color`.
    pub fn new(text: Vec<u8>, offset: (usize, usize), color: Rgb8) -> (r: Text)
        ensures
            r.text@ == text@,
            r.offset == offset,
            r.color == color,
    {
        Text { text, color, offset }
    }
}

/// A run of text whose characters each take the next colour of a
/// provider.
pub struct TextColored<CP> {
    pub text: Vec<u8>,
    pub color_provider: CP,
    pub offset: (usize, usize),
}

impl<CP> TextColored<CP> {
    /// Text at `offset`, coloured character by character from the
    /// provider.
    pub fn new(text: Vec<u8>, offset: (usize, usize), color_provider: CP) -> (r: TextColored<
        CP,
    >)
        ensures
            r.text@ == text@,
            r.offset == offset,
    {
        TextColored { text, color_provider, offset }
    }
}

} // verus!
