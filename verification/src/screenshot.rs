//! The bytes of a screenshot: an ARGB framebuffer as RGBA image data.

use vstd::prelude::*;

verus! {

/// The RGBA bytes of row-major ARGB pixels: red, green, blue, alpha per pixel.
pub open spec fn pixels_to_rgba(pixels: Seq<u32>) -> Seq<u8> {
    Seq::new(
        pixels.len() * 4,
        |i: int|
            {
                let color = pixels[i / 4];
                if i % 4 == 0 {
                    ((color >> 16u32) & 0xFFu32) as u8
                } else if i % 4 == 1 {
                    ((color >> 8u32) & 0xFFu32) as u8
                } else if i % 4 == 2 {
                    (color & 0xFFu32) as u8
                } else {
                    ((color >> 24u32) & 0xFFu32) as u8
                }
            },
    )
}

/// The RGBA image data of a `width` x `height` screenshot of a framebuffer.
pub fn screenshot_rgba(pixels: &Vec<u32>, width: usize, height: usize) -> (r: Vec<u8>)
    requires
        width * height <= pixels@.len(),
        pixels@.len() * 4 <= usize::MAX,
    ensures
        r@ == pixels_to_rgba(pixels@.take(width * height)),
{
    let ghost shown = pixels@.take(width * height);
    let count = width * height;
    let mut r: Vec<u8> = Vec::new();
    let mut i: usize = 0;
    while i < count
        invariant
            count == width * height,
            count <= pixels@.len(),
            pixels@.len() * 4 <= usize::MAX,
            shown == pixels@.take(count as int),
            i <= count,
            r@ == pixels_to_rgba(shown).take(4 * i),
        decreases count - i,
    {
        let color = pixels[i];
        r.push(((color >> 16) & 0xFF) as u8);
        r.push(((color >> 8) & 0xFF) as u8);
        r.push((color & 0xFF) as u8);
        r.push(((color >> 24) & 0xFF) as u8);
        proof {
            let full = pixels_to_rgba(shown);
            assert(shown[i as int] == color);
            assert(full[4 * i] == ((color >> 16u32) & 0xFFu32) as u8);
            assert(full[4 * i + 1] == ((color >> 8u32) & 0xFFu32) as u8);
            assert(full[4 * i + 2] == (color & 0xFFu32) as u8);
            assert(full[4 * i + 3] == ((color >> 24u32) & 0xFFu32) as u8);
            assert(r@ =~= full.take(4 * (i + 1)));
        }
        i = i + 1;
    }
    assert(pixels_to_rgba(shown).take(4 * i) =~= pixels_to_rgba(shown));
    r
}

} // verus!
