//! Display colors and conversion from linear fixed-point color vectors.
//!
//! A `Color` holds the four 0–255 channels written to a pixel buffer.
//! Colors appear only at the final pixel-write boundary: all shading math
//! runs on linear `Vec3` colors, which `vector3_to_color` clamps and
//! rounds. The rounding is to nearest, which makes the conversion a left
//! inverse of `color_to_vector3` on every in-range channel.

use vstd::prelude::*;
use vstd::arithmetic::div_mod::{lemma_fundamental_div_mod, lemma_fundamental_div_mod_converse};
use crate::fx::FX_ONE;
use crate::vec3::Vec3;

verus! {

#[derive(Clone, Copy, PartialEq, Eq, Structural, Debug)]
pub struct Color {
    pub r: u8,
    pub g: u8,
    pub b: u8,
    pub a: u8,
}

impl Color {
    pub fn new(r: u8, g: u8, b: u8, a: u8) -> (c: Color)
        ensures
            c == (Color { r, g, b, a }),
    {
        Color { r, g, b, a }
    }
}

/// One linear fixed-point channel mapped to a display byte: scaled by 255,
/// rounded to nearest, and clamped to [0, 255].
pub open spec fn channel_to_byte(v: int) -> int {
    if v <= 0 {
        0
    } else {
        let q = (v * 255 + FX_ONE / 2) / (FX_ONE as int);
        if q > 255 {
            255
        } else {
            q
        }
    }
}

/// One display byte mapped to a linear fixed-point channel in [0, 1].
pub open spec fn byte_to_channel(c: int) -> int {
    c * FX_ONE / 255
}

/// What `vector3_to_color` returns.
pub open spec fn vector3_to_color_val(v: Vec3) -> Color {
    Color {
        r: channel_to_byte(v.x as int) as u8,
        g: channel_to_byte(v.y as int) as u8,
        b: channel_to_byte(v.z as int) as u8,
        a: 255,
    }
}

/// What `color_to_vector3` returns.
pub open spec fn color_to_vector3_val(c: Color) -> Vec3 {
    Vec3 {
        x: byte_to_channel(c.r as int) as i64,
        y: byte_to_channel(c.g as int) as i64,
        z: byte_to_channel(c.b as int) as i64,
    }
}

fn to_byte(v: i64) -> (r: u8)
    ensures
        r == channel_to_byte(v as int),
{
    if v <= 0 {
        return 0;
    }
    let t: u128 = (v as u128) * 255 + 32768;
    let q: u128 = t / 65536;
    if q > 255 {
        255
    } else {
        q as u8
    }
}

/// Clamp a linear color vector to a displayable pixel color, with full
/// alpha. Channels at or below zero map to 0; channels at or above 1.0
/// (after rounding) map to 255.
pub fn vector3_to_color(v: Vec3) -> (c: Color)
    ensures
        c == vector3_to_color_val(v),
{
    Color { r: to_byte(v.x), g: to_byte(v.y), b: to_byte(v.z), a: 255 }
}

/// Lift a display color into the linear [0, 1] fixed-point range, dropping
/// alpha.
pub fn color_to_vector3(c: Color) -> (v: Vec3)
    ensures
        v == color_to_vector3_val(c),
{
    let x: u64 = (c.r as u64) * 65536 / 255;
    let y: u64 = (c.g as u64) * 65536 / 255;
    let z: u64 = (c.b as u64) * 65536 / 255;
    Vec3 { x: x as i64, y: y as i64, z: z as i64 }
}

/// Round-tripping a display color through the linear range returns the
/// same color: `vector3_to_color` is a left inverse of `color_to_vector3`
/// for every in-range (0–255) channel value. `color_to_vector3` drops the
/// alpha channel and `vector3_to_color` writes full alpha, so the round
/// trip restores exactly the colors whose alpha is already full.
pub proof fn lemma_color_round_trip(c: Color)
    requires
        c.a == 255,
    ensures
        vector3_to_color_val(color_to_vector3_val(c)) == c,
{
    lemma_channel_round_trip(c.r as int);
    lemma_channel_round_trip(c.g as int);
    lemma_channel_round_trip(c.b as int);
}

/// One channel survives the round trip exactly.
pub proof fn lemma_channel_round_trip(ch: int)
    requires
        0 <= ch <= 255,
    ensures
        channel_to_byte(byte_to_channel(ch)) == ch,
{
    let v = ch * FX_ONE / 255;
    lemma_fundamental_div_mod(ch * FX_ONE, 255);
    let rem = (ch * FX_ONE) % 255;
    assert(ch * FX_ONE == 255 * v + rem);
    if ch == 0 {
        assert(v == 0);
    } else {
        assert(v >= 1) by (nonlinear_arith)
            requires
                1 <= ch <= 255,
                ch * FX_ONE == 255 * v + rem,
                0 <= rem < 255,
                FX_ONE == 65536,
        ;
        let t = v * 255 + FX_ONE / 2;
        assert(t == ch * 65536 + (32768 - rem) - 65536 * 0) by (nonlinear_arith)
            requires
                ch * FX_ONE == 255 * v + rem,
                t == v * 255 + FX_ONE / 2,
                FX_ONE == 65536,
        ;
        lemma_fundamental_div_mod_converse(t, 65536, ch, 32768 - rem);
        assert(t / (FX_ONE as int) == ch);
    }
}

} // verus!
