use vstd::prelude::*;

verus! {

/// A color as four 8-bit channels.
#[derive(Clone, Copy, Debug, PartialEq, Eq, Structural)]
pub struct Color {
    pub r: u8,
    pub g: u8,
    pub b: u8,
    pub a: u8,
}

/// The four channels packed big-endian into one word.
pub open spec fn packed(c: Color) -> u32 {
    ((c.r as u32) << 24u32) | ((c.g as u32) << 16u32) | ((c.b as u32) << 8u32) | (c.a as u32)
}

/// Squared Euclidean distance between two colors over all four channels.
///
/// Normalizing each channel to the unit interval divides every such distance
/// by the same constant, so the order of distances, and thus which palette
/// color is nearest, is the same in either scale.
pub open spec fn sq_dist(x: Color, y: Color) -> int {
    (x.r - y.r) * (x.r - y.r) + (x.g - y.g) * (x.g - y.g) + (x.b - y.b) * (x.b - y.b) + (x.a
        - y.a) * (x.a - y.a)
}

impl Color {
    pub fn new(r: u8, g: u8, b: u8, a: u8) -> (c: Color)
        ensures
            c == (Color { r, g, b, a }),
    {
        Color { r, g, b, a }
    }

    /// The color as a single key word.
    pub fn pack(self) -> (k: u32)
        ensures
            k == packed(self),
    {
        ((self.r as u32) << 24u32) | ((self.g as u32) << 16u32) | ((self.b as u32) << 8u32) | (
        self.a as u32)
    }

    /// Squared distance between two colors.
    pub fn distance(self, other: Color) -> (d: u32)
        ensures
            d == sq_dist(self, other),
    {
        let dr: i32 = self.r as i32 - other.r as i32;
        let dg: i32 = self.g as i32 - other.g as i32;
        let db: i32 = self.b as i32 - other.b as i32;
        let da: i32 = self.a as i32 - other.a as i32;
        assert(0 <= dr * dr <= 65025) by (nonlinear_arith)
            requires
                -255 <= dr <= 255,
        ;
        assert(0 <= dg * dg <= 65025) by (nonlinear_arith)
            requires
                -255 <= dg <= 255,
        ;
        assert(0 <= db * db <= 65025) by (nonlinear_arith)
            requires
                -255 <= db <= 255,
        ;
        assert(0 <= da * da <= 65025) by (nonlinear_arith)
            requires
                -255 <= da <= 255,
        ;
        ((dr * dr) + (dg * dg) + (db * db) + (da * da)) as u32
    }
}

proof fn lemma_unpack(r: u8, g: u8, b: u8, a: u8, k: u32)
    requires
        k == ((r as u32) << 24u32) | ((g as u32) << 16u32) | ((b as u32) << 8u32) | (a as u32),
    ensures
        (k >> 24u32) as u8 == r,
        ((k >> 16u32) & 0xffu32) as u8 == g,
        ((k >> 8u32) & 0xffu32) as u8 == b,
        (k & 0xffu32) as u8 == a,
{
    assert((k >> 24u32) as u8 == r) by (bit_vector)
        requires
            k == ((r as u32) << 24u32) | ((g as u32) << 16u32) | ((b as u32) << 8u32) | (a as u32),
    ;
    assert(((k >> 16u32) & 0xffu32) as u8 == g) by (bit_vector)
        requires
            k == ((r as u32) << 24u32) | ((g as u32) << 16u32) | ((b as u32) << 8u32) | (a as u32),
    ;
    assert(((k >> 8u32) & 0xffu32) as u8 == b) by (bit_vector)
        requires
            k == ((r as u32) << 24u32) | ((g as u32) << 16u32) | ((b as u32) << 8u32) | (a as u32),
    ;
    assert((k & 0xffu32) as u8 == a) by (bit_vector)
        requires
            k == ((r as u32) << 24u32) | ((g as u32) << 16u32) | ((b as u32) << 8u32) | (a as u32),
    ;
}

/// Distinct colors have distinct keys.
pub proof fn lemma_packed_injective(x: Color, y: Color)
    requires
        packed(x) == packed(y),
    ensures
        x == y,
{
    lemma_unpack(x.r, x.g, x.b, x.a, packed(x));
    lemma_unpack(y.r, y.g, y.b, y.a, packed(y));
}

} // verus!
