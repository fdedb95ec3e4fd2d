//! Texture storage and sampling.
//!
//! A `Texture` is a dense row-major pixel grid; a `TextureManager` owns
//! the textures a scene refers to by index. Decoding image files is the
//! host's concern: the manager only receives plain pixel data, and
//! rejects inconsistent dimensions when a texture is added (a scene
//! referring to an id the manager does not know is a configuration error
//! caught before rendering, not substituted mid-render). Sampling is
//! nearest-pixel, with coordinates clamped to the grid.

use vstd::prelude::*;
use crate::color::Color;
use crate::fx::{fx_tdiv, FX_ONE};
use crate::vec3::Vec3;

verus! {

#[derive(Debug)]
pub struct Texture {
    pub width: u32,
    pub height: u32,
    pub pixels: Vec<Color>,
}

impl Texture {
    /// A texture is well formed when it has at least one pixel in each
    /// direction and exactly one stored color per grid cell.
    pub open spec fn wf(self) -> bool {
        &&& self.width >= 1
        &&& self.height >= 1
        &&& self.pixels@.len() == (self.width as int) * (self.height as int)
    }

    /// Validate plain pixel data into a texture; dimensions that do not
    /// match the data are rejected here, before any rendering.
    pub fn new(width: u32, height: u32, pixels: Vec<Color>) -> (r: Option<Texture>)
        ensures
            match r {
                Some(t) => t.wf() && t.width == width && t.height == height && t.pixels@
                    == pixels@,
                None => width == 0 || height == 0 || pixels@.len() != (width as int) * (
                height as int),
            },
    {
        if width == 0 || height == 0 {
            return None;
        }
        proof {
            assert((width as int) * (height as int) < 18446744073709551616int)
                by (nonlinear_arith);
        }
        let expect: u64 = (width as u64) * (height as u64);
        if (pixels.len() as u64) != expect {
            return None;
        }
        Some(Texture { width, height, pixels })
    }
}

/// The color of texel (tx, ty) of texture `id`, with the coordinates
/// clamped onto the grid. Only meaningful for valid ids.
pub open spec fn spec_texel(tm: TextureManager, id: int, tx: int, ty: int) -> Color {
    let t = tm.textures@[id];
    let cx = if tx >= t.width {
        t.width - 1
    } else {
        tx
    };
    let cy = if ty >= t.height {
        t.height - 1
    } else {
        ty
    };
    t.pixels@[cy * t.width + cx]
}

/// One color byte mapped to a signed fixed-point component in [-1, 1],
/// as tangent-space normal maps encode their axes.
pub open spec fn byte_to_snorm(c: int) -> int {
    fx_tdiv(c * 2 * FX_ONE, 255) - FX_ONE
}

/// What `get_normal_from_map` returns for a valid id: the texel decoded
/// into a tangent-space direction.
pub open spec fn spec_normal_from_map(tm: TextureManager, id: int, tx: int, ty: int) -> Option<
    Vec3,
> {
    if 0 <= id < tm.textures@.len() {
        let c = spec_texel(tm, id, tx, ty);
        Some(
            Vec3 {
                x: byte_to_snorm(c.r as int) as i64,
                y: byte_to_snorm(c.g as int) as i64,
                z: byte_to_snorm(c.b as int) as i64,
            },
        )
    } else {
        None
    }
}

/// What `tex_coord` returns: a [0, 1) fixed-point coordinate scaled to a
/// pixel index, saturating below zero and above the last pixel.
pub open spec fn spec_tex_coord(u: int, dim: int) -> int {
    if u <= 0 {
        0
    } else {
        let q = fx_tdiv(u * dim, FX_ONE as int);
        if q >= dim {
            dim - 1
        } else {
            q
        }
    }
}

#[derive(Debug)]
pub struct TextureManager {
    pub textures: Vec<Texture>,
}

impl TextureManager {
    /// Every stored texture is well formed.
    pub open spec fn wf(self) -> bool {
        forall|i: int| 0 <= i < self.textures@.len() ==> self.textures@[i].wf()
    }

    pub fn new() -> (tm: TextureManager)
        ensures
            tm.wf(),
            tm.textures@.len() == 0,
    {
        TextureManager { textures: Vec::new() }
    }

    /// Register validated pixel data; the returned id is what materials
    /// store. Inconsistent data is rejected here, failing fast at scene
    /// construction time.
    pub fn add_texture(&mut self, width: u32, height: u32, pixels: Vec<Color>) -> (r: Option<
        usize,
    >)
        requires
            old(self).wf(),
        ensures
            final(self).wf(),
            match r {
                Some(id) => {
                    &&& id == old(self).textures@.len()
                    &&& final(self).textures@.len() == old(self).textures@.len() + 1
                    &&& final(self).textures@.subrange(0, id as int) == old(self).textures@
                    &&& final(self).textures@[id as int].width == width
                    &&& final(self).textures@[id as int].height == height
                    &&& final(self).textures@[id as int].pixels@ == pixels@
                },
                None => {
                    &&& *final(self) == *old(self)
                    &&& (width == 0 || height == 0 || pixels@.len() != (width as int) * (
                    height as int))
                },
            },
    {
        let tex = Texture::new(width, height, pixels);
        match tex {
            Some(t) => {
                let id = self.textures.len();
                self.textures.push(t);
                proof {
                    assert(final(self).textures@.subrange(0, id as int) =~= old(self).textures@);
                }
                Some(id)
            },
            None => None,
        }
    }

    pub fn texture_count(&self) -> (n: usize)
        ensures
            n == self.textures@.len(),
    {
        self.textures.len()
    }

    pub fn width_of(&self, id: usize) -> (w: u32)
        requires
            id < self.textures@.len(),
        ensures
            w == self.textures@[id as int].width,
    {
        self.textures[id].width
    }

    pub fn height_of(&self, id: usize) -> (h: u32)
        requires
            id < self.textures@.len(),
        ensures
            h == self.textures@[id as int].height,
    {
        self.textures[id].height
    }

    /// Nearest-pixel color sample.
    pub fn get_pixel_color(&self, id: usize, tx: u32, ty: u32) -> (c: Color)
        requires
            self.wf(),
            id < self.textures@.len(),
        ensures
            c == spec_texel(*self, id as int, tx as int, ty as int),
    {
        let t = &self.textures[id];
        let cx: u32 = if tx >= t.width {
            t.width - 1
        } else {
            tx
        };
        let cy: u32 = if ty >= t.height {
            t.height - 1
        } else {
            ty
        };
        proof {
            assert(self.textures@[id as int].wf());
            assert((cy as int) * (t.width as int) + (cx as int) < (t.width as int) * (
            t.height as int) && (t.width as int) * (t.height as int) < 18446744073709551616int)
                by (nonlinear_arith)
                requires
                    cx < t.width,
                    cy < t.height,
            ;
        }
        let idx: u64 = (cy as u64) * (t.width as u64) + (cx as u64);
        // The pixel count, a usize, bounds the index for the cast.
        let n: usize = t.pixels.len();
        proof {
            assert((idx as int) < n as int);
        }
        t.pixels[idx as usize]
    }

    /// Tangent-space normal sample, or `None` when the manager does not
    /// know the id.
    pub fn get_normal_from_map(&self, id: usize, tx: u32, ty: u32) -> (r: Option<Vec3>)
        requires
            self.wf(),
        ensures
            r == spec_normal_from_map(*self, id as int, tx as int, ty as int),
    {
        if id >= self.textures.len() {
            return None;
        }
        let c = self.get_pixel_color(id, tx, ty);
        let x: i64 = ((c.r as u64) * 131072 / 255) as i64 - 65536;
        let y: i64 = ((c.g as u64) * 131072 / 255) as i64 - 65536;
        let z: i64 = ((c.b as u64) * 131072 / 255) as i64 - 65536;
        Some(Vec3 { x, y, z })
    }
}

/// Scale a fixed-point surface coordinate to a pixel index in [0, dim).
pub fn tex_coord(u: i64, dim: u32) -> (t: u32)
    requires
        dim >= 1,
    ensures
        t == spec_tex_coord(u as int, dim as int),
        t < dim,
{
    if u <= 0 {
        return 0;
    }
    proof {
        assert(0 <= (u as int) * (dim as int)
            < 340282366920938463463374607431768211456int) by (nonlinear_arith)
            requires
                u > 0,
                dim >= 1,
        ;
    }
    let q: u128 = (u as u128) * (dim as u128) / 65536;
    if q >= dim as u128 {
        dim - 1
    } else {
        q as u32
    }
}

} // verus!
