//! Halo tags: a halo's sRGB color and intensity travel to the shader packed in
//! one `u32`, a byte each (red lowest, intensity highest).
use vstd::prelude::*;

verus! {

/// Side of the square radial halo texture, in texels.
pub const HALO_TEXTURE_SIZE: u32 = 64;

/// A halo's color as sRGB bytes and its intensity as a byte (255 is the
/// strongest halo).
#[derive(Debug, Clone, Copy, PartialEq, Eq, Structural, Default)]
pub struct HaloBytes {
    pub red: u8,
    pub green: u8,
    pub blue: u8,
    pub intensity: u8,
}

/// The tag holding `b`: red in the lowest byte, then green, blue and
/// intensity.
pub open spec fn tag_value(b: HaloBytes) -> int {
    b.red + 0x100 * b.green + 0x1_0000 * b.blue + 0x100_0000 * b.intensity
}

/// Packs a halo's color bytes and intensity byte into a tag.
pub fn pack_halo(b: HaloBytes) -> (tag: u32)
    ensures
        tag == tag_value(b),
{
    let r: u32 = b.red as u32;
    let g: u32 = b.green as u32;
    let bl: u32 = b.blue as u32;
    let i: u32 = b.intensity as u32;
    assert(r < 0x100 && g < 0x100 && bl < 0x100 && i < 0x100);
    assert((r | g << 8u32 | bl << 16u32 | i << 24u32) == r + 0x100 * g + 0x1_0000 * bl + 0x100_0000
        * i) by (bit_vector)
        requires
            r < 0x100,
            g < 0x100,
            bl < 0x100,
            i < 0x100,
    ;
    r | g << 8u32 | bl << 16u32 | i << 24u32
}

/// Inverse of [`pack_halo`] (as the shader reads it).
pub fn unpack_halo(tag: u32) -> (b: HaloBytes)
    ensures
        tag_value(b) == tag,
        b.red == tag % 0x100,
        b.green == (tag / 0x100) % 0x100,
        b.blue == (tag / 0x1_0000) % 0x100,
        b.intensity == tag / 0x100_0000,
{
    let r: u32 = tag & 0xFF;
    let g: u32 = (tag >> 8u32) & 0xFF;
    let bl: u32 = (tag >> 16u32) & 0xFF;
    let i: u32 = (tag >> 24u32) & 0xFF;
    assert(r == tag % 0x100 && g == (tag / 0x100) % 0x100 && bl == (tag / 0x1_0000) % 0x100 && i
        == tag / 0x100_0000 && tag == r + 0x100 * g + 0x1_0000 * bl + 0x100_0000 * i) by (
    bit_vector)
        requires
            r == tag & 0xFF,
            g == (tag >> 8u32) & 0xFF,
            bl == (tag >> 16u32) & 0xFF,
            i == (tag >> 24u32) & 0xFF,
    ;
    HaloBytes { red: r as u8, green: g as u8, blue: bl as u8, intensity: i as u8 }
}

/// A tag gives back what was packed into it, and every tag is the packing of
/// what it unpacks to: packing and unpacking are inverse bijections.
pub proof fn lemma_halo_tag_round_trip(b: HaloBytes, tag: u32)
    ensures
        tag_value(b) <= u32::MAX,
        tag == tag_value(b) <==> b == (HaloBytes {
            red: (tag % 0x100) as u8,
            green: ((tag / 0x100) % 0x100) as u8,
            blue: ((tag / 0x1_0000) % 0x100) as u8,
            intensity: (tag / 0x100_0000) as u8,
        }),
{
    let (r, g, bl, i) = (b.red, b.green, b.blue, b.intensity);
    assert(r + 0x100 * g + 0x1_0000 * bl + 0x100_0000 * i <= u32::MAX) by (nonlinear_arith)
        requires
            r < 0x100,
            g < 0x100,
            bl < 0x100,
            i < 0x100,
    ;
    assert(tag == r + 0x100 * g + 0x1_0000 * bl + 0x100_0000 * i <==> (r == tag % 0x100 && g == (
    tag / 0x100) % 0x100 && bl == (tag / 0x1_0000) % 0x100 && i == tag / 0x100_0000)) by (
    nonlinear_arith)
        requires
            r < 0x100,
            g < 0x100,
            bl < 0x100,
            i < 0x100,
            0 <= tag <= u32::MAX,
    ;
}

} // verus!
