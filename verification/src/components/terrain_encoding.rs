//! Terrain-RGB pixel codes for MapLibre terrain tiles.
//!
//! An elevation is stored in a pixel as a 24-bit code,
//! `elevation_meters = -10000 + code * 0.1`, whose high, middle and low bytes
//! are the red, green and blue channels. This module holds the exact integer
//! part of that encoding: splitting a code into channels and joining the
//! channels back into the code.

use vstd::prelude::*;

verus! {

/// The largest code a pixel can hold: 2^24 - 1, which is (255, 255, 255).
pub const MAX_TERRAIN_CODE: u32 = 16777215;

/// The code that the channels of a pixel spell: `R * 65536 + G * 256 + B`.
pub open spec fn terrain_code(r: u8, g: u8, b: u8) -> int {
    r * 65536 + g * 256 + b
}

/// The channels of a code: its high, middle and low byte.
pub open spec fn terrain_channels(code: int) -> (int, int, int) {
    ((code / 65536) % 256, (code / 256) % 256, code % 256)
}

/// Splits a code into its red, green and blue channels:
/// `((code >> 16) & 0xFF, (code >> 8) & 0xFF, code & 0xFF)`.
pub fn terrain_rgb_from_code(code: u32) -> (rgb: (u8, u8, u8))
    ensures
        rgb.0 == terrain_channels(code as int).0,
        rgb.1 == terrain_channels(code as int).1,
        rgb.2 == terrain_channels(code as int).2,
{
    let r = ((code >> 16) & 0xFF) as u8;
    let g = ((code >> 8) & 0xFF) as u8;
    let b = (code & 0xFF) as u8;
    assert(r == (code / 65536) % 256) by (bit_vector)
        requires
            r == ((code >> 16) & 0xFF) as u8,
    ;
    assert(g == (code / 256) % 256) by (bit_vector)
        requires
            g == ((code >> 8) & 0xFF) as u8,
    ;
    assert(b == code % 256) by (bit_vector)
        requires
            b == (code & 0xFF) as u8,
    ;
    (r, g, b)
}

/// Joins the red, green and blue channels of a pixel into its code.
pub fn terrain_code_from_rgb(r: u8, g: u8, b: u8) -> (code: u32)
    ensures
        code == terrain_code(r, g, b),
        code <= MAX_TERRAIN_CODE,
{
    (r as u32) * 65536 + (g as u32) * 256 + (b as u32)
}

/// Joining the channels of a code gives the code back, for every code a
/// pixel can hold.
pub proof fn law_terrain_code_round_trip(code: u32)
    requires
        code <= MAX_TERRAIN_CODE,
    ensures
        terrain_code(
            terrain_channels(code as int).0 as u8,
            terrain_channels(code as int).1 as u8,
            terrain_channels(code as int).2 as u8,
        ) == code,
{
    let c = code as int;
    assert((c / 65536) % 256 == c / 65536) by (nonlinear_arith)
        requires
            0 <= c <= 16777215,
    ;
    assert(c == (c / 65536) * 65536 + ((c / 256) % 256) * 256 + c % 256) by (nonlinear_arith)
        requires
            0 <= c <= 16777215,
    ;
}

/// Splitting the code of a pixel gives its channels back.
pub proof fn law_terrain_channels_round_trip(r: u8, g: u8, b: u8)
    ensures
        terrain_channels(terrain_code(r, g, b)) == (r as int, g as int, b as int),
{
    let c = terrain_code(r, g, b);
    assert(c / 65536 == r && (c / 256) % 256 == g && c % 256 == b) by (nonlinear_arith)
        requires
            c == r * 65536 + g * 256 + b,
            0 <= r < 256,
            0 <= g < 256,
            0 <= b < 256,
    ;
}

} // verus!
