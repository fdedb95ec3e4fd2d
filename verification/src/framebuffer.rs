//! A row-major pixel buffer with a background and a drawing color.
//!
//! The buffer is plain data: the host uploads it to whatever display
//! surface it uses. Out-of-bounds writes and reads are ignored rather
//! than failing, as a drawing surface should.

use vstd::prelude::*;
use crate::color::Color;

verus! {

pub struct Framebuffer {
    pub width: i32,
    pub height: i32,
    pub buffer: Vec<Color>,
    pub background_color: Color,
    pub current_color: Color,
}

impl Framebuffer {
    /// Nonnegative dimensions and one stored color per pixel.
    pub open spec fn wf(self) -> bool {
        &&& self.width >= 0
        &&& self.height >= 0
        &&& self.buffer@.len() == (self.width as int) * (self.height as int)
    }

    /// The stored pixel colors, row-major.
    pub open spec fn spec_pixels(self) -> Seq<Color> {
        self.buffer@
    }

    pub open spec fn spec_background(self) -> Color {
        self.background_color
    }

    pub open spec fn spec_current(self) -> Color {
        self.current_color
    }

    /// The row-major index of pixel (x, y).
    pub open spec fn spec_index(self, x: int, y: int) -> int {
        y * self.width + x
    }

    pub open spec fn in_bounds(self, x: int, y: int) -> bool {
        0 <= x < self.width && 0 <= y < self.height
    }

    /// A buffer of the given size, filled with black, drawing in white.
    pub fn new(width: i32, height: i32) -> (fb: Framebuffer)
        requires
            width >= 0,
            height >= 0,
            width * height <= usize::MAX,
        ensures
            fb.wf(),
            fb.width == width,
            fb.height == height,
            fb.spec_background() == (Color { r: 0u8, g: 0u8, b: 0u8, a: 255u8 }),
            fb.spec_current() == (Color { r: 255u8, g: 255u8, b: 255u8, a: 255u8 }),
            forall|i: int|
                0 <= i < fb.spec_pixels().len() ==> fb.spec_pixels()[i] == fb.spec_background(),
    {
        let background_color = Color { r: 0, g: 0, b: 0, a: 255 };
        let total: usize = (width as usize) * (height as usize);
        let mut buffer: Vec<Color> = Vec::new();
        let mut i: usize = 0;
        while i < total
            invariant
                i <= total,
                buffer@.len() == i,
                forall|j: int| 0 <= j < i ==> buffer@[j] == background_color,
            decreases total - i,
        {
            buffer.push(background_color);
            i = i + 1;
        }
        Framebuffer {
            width,
            height,
            buffer,
            background_color,
            current_color: Color { r: 255, g: 255, b: 255, a: 255 },
        }
    }

    /// Repaint every pixel with the background color.
    pub fn clear(&mut self)
        requires
            old(self).wf(),
        ensures
            final(self).wf(),
            final(self).width == old(self).width,
            final(self).height == old(self).height,
            final(self).spec_background() == old(self).spec_background(),
            final(self).spec_current() == old(self).spec_current(),
            final(self).spec_pixels().len() == old(self).spec_pixels().len(),
            forall|i: int|
                0 <= i < final(self).spec_pixels().len() ==> final(self).spec_pixels()[i] == old(
                    self,
                ).spec_background(),
    {
        let total: usize = self.buffer.len();
        let mut i: usize = 0;
        while i < total
            invariant
                i <= total,
                self.buffer@.len() == total,
                self.width == old(self).width,
                self.height == old(self).height,
                self.background_color == old(self).background_color,
                self.current_color == old(self).current_color,
                forall|j: int| 0 <= j < i ==> self.buffer@[j] == old(self).background_color,
            decreases total - i,
        {
            let c = self.background_color;
            self.buffer.set(i, c);
            i = i + 1;
        }
    }

    /// Paint pixel (x, y) with the current drawing color; coordinates
    /// outside the buffer are ignored.
    pub fn set_pixel(&mut self, x: i32, y: i32)
        requires
            old(self).wf(),
        ensures
            final(self).wf(),
            final(self).width == old(self).width,
            final(self).height == old(self).height,
            final(self).spec_background() == old(self).spec_background(),
            final(self).spec_current() == old(self).spec_current(),
            old(self).in_bounds(x as int, y as int) ==> final(self).spec_pixels() == old(
                self,
            ).spec_pixels().update(old(self).spec_index(x as int, y as int), old(self).spec_current()),
            !old(self).in_bounds(x as int, y as int) ==> final(self).spec_pixels() == old(
                self,
            ).spec_pixels(),
    {
        if x >= 0 && x < self.width && y >= 0 && y < self.height {
            proof {
                assert(0 <= (y as int) * (self.width as int) && (y as int) * (self.width as int)
                    + (x as int) < (self.width as int) * (self.height as int) && (
                self.width as int) * (self.height as int) < 4611686018427387904int)
                    by (nonlinear_arith)
                    requires
                        0 <= x < self.width,
                        0 <= y < self.height,
                        self.width < 2147483648i64,
                        self.height < 2147483648i64,
                ;
            }
            let idx64: i64 = (y as i64) * (self.width as i64) + (x as i64);
            // The buffer length, a usize, bounds the index for the cast.
            let n: usize = self.buffer.len();
            let c = self.current_color;
            self.buffer.set(idx64 as usize, c);
        }
    }

    /// Read pixel (x, y), or `None` outside the buffer.
    pub fn get_pixel_color(&self, x: i32, y: i32) -> (r: Option<Color>)
        requires
            self.wf(),
        ensures
            self.in_bounds(x as int, y as int) ==> r == Some(
                self.spec_pixels()[self.spec_index(x as int, y as int)],
            ),
            !self.in_bounds(x as int, y as int) ==> r is None,
    {
        if x >= 0 && x < self.width && y >= 0 && y < self.height {
            proof {
                assert(0 <= (y as int) * (self.width as int) && (y as int) * (self.width as int)
                    + (x as int) < (self.width as int) * (self.height as int) && (
                self.width as int) * (self.height as int) < 4611686018427387904int)
                    by (nonlinear_arith)
                    requires
                        0 <= x < self.width,
                        0 <= y < self.height,
                        self.width < 2147483648i64,
                        self.height < 2147483648i64,
                ;
            }
            let idx64: i64 = (y as i64) * (self.width as i64) + (x as i64);
            // The buffer length, a usize, bounds the index for the cast.
            let n: usize = self.buffer.len();
            Some(self.buffer[idx64 as usize])
        } else {
            None
        }
    }

    pub fn set_background_color(&mut self, color: Color)
        ensures
            final(self).spec_background() == color,
            final(self).spec_current() == old(self).spec_current(),
            final(self).spec_pixels() == old(self).spec_pixels(),
            final(self).width == old(self).width,
            final(self).height == old(self).height,
    {
        self.background_color = color;
    }

    pub fn set_current_color(&mut self, color: Color)
        ensures
            final(self).spec_current() == color,
            final(self).spec_background() == old(self).spec_background(),
            final(self).spec_pixels() == old(self).spec_pixels(),
            final(self).width == old(self).width,
            final(self).height == old(self).height,
    {
        self.current_color = color;
    }
}

} // verus!
