//! The GPU frame path's pixel upload: an engine frame as the RGBA8 bytes
//! of a texture.

use vstd::prelude::*;

use crate::doom_thread::SharedFrame;

verus! {

/// The RGBA8 bytes of one `0x00RRGGBB` word: its three colour channels,
/// then an opaque alpha (the high byte is dropped).
pub open spec fn rgba_of(word: u32) -> Seq<u8> {
    seq![(word >> 16) as u8, (word >> 8) as u8, word as u8, 255u8]
}

/// The tightly packed RGBA8 bytes of `words`, four per word, in order.
pub open spec fn rgba_bytes(words: Seq<u32>) -> Seq<u8>
    decreases words.len(),
{
    if words.len() == 0 {
        Seq::empty()
    } else {
        rgba_bytes(words.drop_last()) + rgba_of(words.last())
    }
}

/// plurimus's `PixelGrid::xrgb32(..).write_rgba8(out)`: replaces `out`
/// with the RGBA8 bytes of the first `width * height` words of `pixels`,
/// each word's three low bytes as red, green and blue and an alpha of 255.
/// Its `debug_assert` and slice index need that many words, and the byte
/// count must fit in `usize`.
#[verifier::external_body]
fn xrgb32_write_rgba8(pixels: &[u32], width: usize, height: usize, out: &mut Vec<u8>)
    requires
        width * height <= pixels@.len(),
        width * height * 4 <= usize::MAX,
    ensures
        final(out)@ == rgba_bytes(pixels@.take(width * height)),
{
    plurimus::core::raster::PixelGrid::xrgb32(pixels, width, height).write_rgba8(out)
}

/// Writes `frame` into a texture's bytes: `width * height` opaque RGBA8
/// pixels, replacing whatever `data` held.
pub fn write_rgba(frame: &SharedFrame, data: &mut Vec<u8>)
    requires
        frame.width * frame.height <= frame.pixels@.len(),
        frame.width * frame.height * 4 <= usize::MAX,
    ensures
        final(data)@ == rgba_bytes(frame.pixels@.take(frame.width * frame.height)),
        final(data)@.len() == 4 * (frame.width * frame.height),
{
    xrgb32_write_rgba8(frame.pixels.as_slice(), frame.width, frame.height, data);
    proof {
        lemma_rgba_bytes_len(frame.pixels@.take(frame.width * frame.height));
    }
}

/// Four bytes per pixel.
pub proof fn lemma_rgba_bytes_len(words: Seq<u32>)
    ensures
        rgba_bytes(words).len() == 4 * words.len(),
    decreases words.len(),
{
    if words.len() > 0 {
        lemma_rgba_bytes_len(words.drop_last());
    }
}

/// Pixel `i` lands in bytes `4 * i .. 4 * i + 4`.
pub proof fn lemma_rgba_bytes_index(words: Seq<u32>, i: int)
    requires
        0 <= i < words.len(),
    ensures
        rgba_bytes(words).subrange(4 * i, 4 * i + 4) == rgba_of(words[i]),
    decreases words.len(),
{
    let init = words.drop_last();
    lemma_rgba_bytes_len(init);
    if i < words.len() - 1 {
        lemma_rgba_bytes_index(init, i);
        assert(rgba_bytes(words).subrange(4 * i, 4 * i + 4) =~= rgba_bytes(init).subrange(4 * i, 4 * i + 4));
    } else {
        assert(rgba_bytes(words).subrange(4 * i, 4 * i + 4) =~= rgba_of(words.last()));
    }
}

} // verus!
