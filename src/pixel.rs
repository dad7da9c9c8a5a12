use vstd::prelude::*;

verus! {

/// The value of a packed `0x00RRGGBB` pixel: top byte zero, then red, green
/// and blue, eight bits each.
pub open spec fn packed(r: u8, g: u8, b: u8) -> u32 {
    (r as int * 0x1_0000 + g as int * 0x100 + b as int) as u32
}

/// Packs one colour into the surface's 32-bit pixel format.
pub fn rgb(r: u8, g: u8, b: u8) -> (px: u32)
    ensures
        px == packed(r, g, b),
        px < 0x100_0000,
{
    (r as u32) * 0x1_0000 + (g as u32) * 0x100 + (b as u32)
}

/// Every pixel of `s` holds `color`.
pub open spec fn all_pixels(s: Seq<u32>, color: u32) -> bool {
    forall|i: int| 0 <= i < s.len() ==> s[i] == color
}

/// Writes `color` into every pixel of `pixels`; an empty buffer is left as it is.
pub fn fill(pixels: &mut [u32], color: u32)
    ensures
        final(pixels)@.len() == old(pixels)@.len(),
        all_pixels(final(pixels)@, color),
{
    let n: usize = pixels.len();
    let mut i: usize = 0;
    while i < n
        invariant
            n == pixels@.len(),
            i <= n,
            forall|j: int| 0 <= j < i ==> pixels@[j] == color,
        decreases n - i,
    {
        pixels[i] = color;
        i = i + 1;
    }
}

} // verus!
