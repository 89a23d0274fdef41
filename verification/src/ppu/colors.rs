//! Display colors: the 64-entry map from NES color indices to RGB, and
//! the fixed palette used when no palette image is supplied.

use vstd::prelude::*;
use crate::error::NesError;

verus! {

/// One display color.
#[derive(Clone, Copy, Debug, PartialEq, Eq, Structural, Default)]
pub struct Color {
    pub r: u8,
    pub g: u8,
    pub b: u8,
}

/// The display color of each of the 64 NES color indices.
pub type ColorMap = Vec<Color>;

/// How many colors the machine can name.
pub const NUM_COLORS: usize = 64;

/// Decode a palette image: exactly 64 RGB triples, in index order.
/// Any other length is refused.
pub fn load_color_map(bytes: &[u8]) -> (r: Result<ColorMap, NesError>)
    ensures
        r is Ok <==> bytes@.len() == 192,
        r matches Ok(m) ==> m@.len() == NUM_COLORS && forall|i: int|
            0 <= i < NUM_COLORS ==> m@[i] == (Color {
                r: bytes@[3 * i],
                g: bytes@[3 * i + 1],
                b: bytes@[3 * i + 2],
            }),
        r is Err ==> r == Err::<ColorMap, NesError>(NesError::BadPalette),
{
    if bytes.len() != 192 {
        return Err(NesError::BadPalette);
    }
    let mut m: Vec<Color> = Vec::new();
    let mut i: usize = 0;
    while i < 64
        invariant
            bytes@.len() == 192,
            i <= 64,
            m@.len() == i,
            forall|j: int|
                0 <= j < i ==> m@[j] == (Color {
                    r: bytes@[3 * j],
                    g: bytes@[3 * j + 1],
                    b: bytes@[3 * j + 2],
                }),
        decreases 64 - i,
    {
        m.push(Color { r: bytes[3 * i], g: bytes[3 * i + 1], b: bytes[3 * i + 2] });
        i += 1;
    }
    Ok(m)
}

/// The built-in NTSC palette, one entry for each of the 64 color indices.
pub fn load_default_color_map() -> (r: ColorMap)
    ensures
        r@.len() == NUM_COLORS,
{
    let mut m: Vec<Color> = Vec::new();
    m.push(Color { r: 84, g: 84, b: 84 });
    m.push(Color { r: 0, g: 30, b: 116 });
    m.push(Color { r: 8, g: 16, b: 144 });
    m.push(Color { r: 48, g: 0, b: 136 });
    m.push(Color { r: 68, g: 0, b: 100 });
    m.push(Color { r: 92, g: 0, b: 48 });
    m.push(Color { r: 84, g: 4, b: 0 });
    m.push(Color { r: 60, g: 24, b: 0 });
    m.push(Color { r: 32, g: 42, b: 0 });
    m.push(Color { r: 8, g: 58, b: 0 });
    m.push(Color { r: 0, g: 64, b: 0 });
    m.push(Color { r: 0, g: 60, b: 0 });
    m.push(Color { r: 0, g: 50, b: 60 });
    m.push(Color { r: 0, g: 0, b: 0 });
    m.push(Color { r: 0, g: 0, b: 0 });
    m.push(Color { r: 0, g: 0, b: 0 });
    m.push(Color { r: 152, g: 150, b: 152 });
    m.push(Color { r: 8, g: 76, b: 196 });
    m.push(Color { r: 48, g: 50, b: 236 });
    m.push(Color { r: 92, g: 30, b: 228 });
    m.push(Color { r: 136, g: 20, b: 176 });
    m.push(Color { r: 160, g: 20, b: 100 });
    m.push(Color { r: 152, g: 34, b: 32 });
    m.push(Color { r: 120, g: 60, b: 0 });
    m.push(Color { r: 84, g: 90, b: 0 });
    m.push(Color { r: 40, g: 114, b: 0 });
    m.push(Color { r: 8, g: 124, b: 0 });
    m.push(Color { r: 0, g: 118, b: 40 });
    m.push(Color { r: 0, g: 102, b: 120 });
    m.push(Color { r: 0, g: 0, b: 0 });
    m.push(Color { r: 0, g: 0, b: 0 });
    m.push(Color { r: 0, g: 0, b: 0 });
    m.push(Color { r: 236, g: 238, b: 236 });
    m.push(Color { r: 76, g: 154, b: 236 });
    m.push(Color { r: 120, g: 124, b: 236 });
    m.push(Color { r: 176, g: 98, b: 236 });
    m.push(Color { r: 228, g: 84, b: 236 });
    m.push(Color { r: 236, g: 88, b: 180 });
    m.push(Color { r: 236, g: 106, b: 100 });
    m.push(Color { r: 212, g: 136, b: 32 });
    m.push(Color { r: 160, g: 170, b: 0 });
    m.push(Color { r: 116, g: 196, b: 0 });
    m.push(Color { r: 76, g: 208, b: 32 });
    m.push(Color { r: 56, g: 204, b: 108 });
    m.push(Color { r: 56, g: 180, b: 204 });
    m.push(Color { r: 60, g: 60, b: 60 });
    m.push(Color { r: 0, g: 0, b: 0 });
    m.push(Color { r: 0, g: 0, b: 0 });
    m.push(Color { r: 236, g: 238, b: 236 });
    m.push(Color { r: 168, g: 204, b: 236 });
    m.push(Color { r: 188, g: 188, b: 236 });
    m.push(Color { r: 212, g: 178, b: 236 });
    m.push(Color { r: 236, g: 174, b: 236 });
    m.push(Color { r: 236, g: 174, b: 212 });
    m.push(Color { r: 236, g: 180, b: 176 });
    m.push(Color { r: 228, g: 196, b: 144 });
    m.push(Color { r: 204, g: 210, b: 120 });
    m.push(Color { r: 180, g: 222, b: 120 });
    m.push(Color { r: 168, g: 226, b: 144 });
    m.push(Color { r: 152, g: 226, b: 180 });
    m.push(Color { r: 160, g: 214, b: 228 });
    m.push(Color { r: 160, g: 162, b: 160 });
    m.push(Color { r: 0, g: 0, b: 0 });
    m.push(Color { r: 0, g: 0, b: 0 });
    m
}

/// A plane of `n` black pixels.
pub fn black_plane(n: usize) -> (r: Vec<Color>)
    ensures
        r@.len() == n,
{
    let mut v: Vec<Color> = Vec::new();
    let mut i: usize = 0;
    while i < n
        invariant
            i <= n,
            v@.len() == i,
        decreases n - i,
    {
        v.push(Color { r: 0, g: 0, b: 0 });
        i += 1;
    }
    v
}

} // verus!
