//! The periodic palette that turns an escape count into a packed RGB colour.

use vstd::prelude::*;

verus! {

/// Linear intensity of an escape count: `floor(255 * count / max_iter)`.
pub open spec fn intensity(count: u32, max_iter: u32) -> int
    recommends
        max_iter > 0,
{
    (255 * count) / (max_iter as int)
}

/// Packs three channels as `red << 16 | green << 8 | blue`.
pub open spec fn pack(red: u32, green: u32, blue: u32) -> u32 {
    (red << 16) | (green << 8) | blue
}

/// The red channel of a packed colour.
pub open spec fn red_of(px: u32) -> u32 {
    (px >> 16) & 0xff
}

/// The green channel of a packed colour.
pub open spec fn green_of(px: u32) -> u32 {
    (px >> 8) & 0xff
}

/// The blue channel of a packed colour.
pub open spec fn blue_of(px: u32) -> u32 {
    px & 0xff
}

/// The colour of an escape count: channels at phases 0, 80 and 160 of the
/// intensity, each taken modulo 255.
pub open spec fn color_of(count: u32, max_iter: u32) -> u32
    recommends
        max_iter > 0,
{
    let x = intensity(count, max_iter);
    pack((x % 255) as u32, ((x + 80) % 255) as u32, ((x + 160) % 255) as u32)
}

/// Colour of the escape count `count` under the bound `max_iter`.
pub fn color(count: u32, max_iter: u32) -> (r: u32)
    requires
        max_iter > 0,
    ensures
        r == color_of(count, max_iter),
{
    let x: u64 = 255u64 * (count as u64) / (max_iter as u64);
    let red: u32 = (x % 255) as u32;
    let green: u32 = ((x + 80) % 255) as u32;
    let blue: u32 = ((x + 160) % 255) as u32;
    (red << 16) | (green << 8) | blue
}

proof fn lemma_pack_channels(red: u32, green: u32, blue: u32)
    requires
        red < 256,
        green < 256,
        blue < 256,
    ensures
        red_of(pack(red, green, blue)) == red,
        green_of(pack(red, green, blue)) == green,
        blue_of(pack(red, green, blue)) == blue,
        pack(red, green, blue) < 0x100_0000,
{
    assert(((((red << 16) | (green << 8) | blue) >> 16) & 0xff) == red) by (bit_vector)
        requires
            red < 256,
            green < 256,
            blue < 256,
    ;
    assert(((((red << 16) | (green << 8) | blue) >> 8) & 0xff) == green) by (bit_vector)
        requires
            red < 256,
            green < 256,
            blue < 256,
    ;
    assert((((red << 16) | (green << 8) | blue) & 0xff) == blue) by (bit_vector)
        requires
            red < 256,
            green < 256,
            blue < 256,
    ;
    assert(((red << 16) | (green << 8) | blue) < 0x100_0000) by (bit_vector)
        requires
            red < 256,
            green < 256,
            blue < 256,
    ;
}

/// Every colour is a 24-bit value whose three channels lie in `[0, 254]` and
/// are the intensity at phases 0, 80 and 160 modulo 255; a count of zero is
/// the colour `(0, 80, 160)` whatever the bound.
pub proof fn lemma_color_channels(count: u32, max_iter: u32)
    requires
        max_iter > 0,
    ensures
        color_of(count, max_iter) < 0x100_0000,
        red_of(color_of(count, max_iter)) <= 254,
        green_of(color_of(count, max_iter)) <= 254,
        blue_of(color_of(count, max_iter)) <= 254,
        red_of(color_of(count, max_iter)) == intensity(count, max_iter) % 255,
        green_of(color_of(count, max_iter)) == (intensity(count, max_iter) + 80) % 255,
        blue_of(color_of(count, max_iter)) == (intensity(count, max_iter) + 160) % 255,
        red_of(color_of(0, max_iter)) == 0,
        green_of(color_of(0, max_iter)) == 80,
        blue_of(color_of(0, max_iter)) == 160,
{
    let x = intensity(count, max_iter);
    assert(x >= 0) by (nonlinear_arith)
        requires
            x == (255 * count) / (max_iter as int),
            max_iter > 0,
    ;
    lemma_pack_channels((x % 255) as u32, ((x + 80) % 255) as u32, ((x + 160) % 255) as u32);
    assert(intensity(0, max_iter) == 0);
    lemma_pack_channels(0, 80, 160);
}

} // verus!
