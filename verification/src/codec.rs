//! Pixel codec: one 16-bit colour sample (5 bits red, 6 bits green, 5 bits
//! blue) to one 8-bit luma sample, by fixed-point weighting with truncating
//! division throughout.

use vstd::prelude::*;

verus! {

/// The red field of a sample: its top five bits.
pub open spec fn red_field(pixel: u16) -> int {
    pixel as int / 2048
}

/// The green field of a sample: the six bits in the middle.
pub open spec fn green_field(pixel: u16) -> int {
    (pixel as int / 32) % 64
}

/// The blue field of a sample: its low five bits.
pub open spec fn blue_field(pixel: u16) -> int {
    pixel as int % 32
}

/// A channel field rescaled to the range of eight bits, where `field_max` is
/// the largest value the field can hold. The division truncates.
pub open spec fn widen(field: int, field_max: int) -> int {
    field * 255 / field_max
}

/// The luma of a sample: the weighted sum of its three widened channels, the
/// weights being the usual luma weights scaled by 256, divided by 256.
pub open spec fn luma(pixel: u16) -> int {
    (77 * widen(red_field(pixel), 31) + 150 * widen(green_field(pixel), 63) + 29 * widen(
        blue_field(pixel),
        31,
    )) / 256
}

/// The sample that two bytes of the wire carry, high byte first.
pub open spec fn sample(high: u8, low: u8) -> u16 {
    (high as int * 256 + low as int) as u16
}

/// The grayscale bytes of a raw stream: one byte for each whole pair of
/// source bytes, in order.
pub open spec fn gray_seq(raw: Seq<u8>) -> Seq<u8> {
    Seq::new(raw.len() / 2, |i: int| luma(sample(raw[2 * i], raw[2 * i + 1])) as u8)
}

/// The luma of every sample fits in a byte.
pub proof fn luma_in_byte_range(pixel: u16)
    ensures
        0 <= luma(pixel) <= 255,
{
    let r = red_field(pixel);
    let g = green_field(pixel);
    let b = blue_field(pixel);
    assert(0 <= r <= 31);
    assert(0 <= g <= 63);
    assert(0 <= b <= 31);
    assert(0 <= widen(r, 31) <= 255);
    assert(0 <= widen(g, 63) <= 255);
    assert(0 <= widen(b, 31) <= 255);
}

/// Converts one colour sample to its luma.
pub fn rgb565_to_gray(pixel: u16) -> (gray: u8)
    ensures
        gray as int == luma(pixel),
{
    let r: u16 = (pixel >> 11) & 0x1F;
    let g: u16 = (pixel >> 5) & 0x3F;
    let b: u16 = pixel & 0x1F;
    proof {
        assert(((pixel >> 11) & 0x1F) == pixel / 2048) by (bit_vector);
        assert(((pixel >> 5) & 0x3F) == (pixel / 32) % 64) by (bit_vector);
        assert((pixel & 0x1F) == pixel % 32) by (bit_vector);
        luma_in_byte_range(pixel);
    }
    let y: u16 = 77 * (r * 255 / 31) + 150 * (g * 255 / 63) + 29 * (b * 255 / 31);
    proof {
        assert((y >> 8) == y / 256) by (bit_vector);
    }
    (y >> 8) as u8
}

/// Puts two bytes of the wire together, high byte first.
pub fn sample_of_bytes(high: u8, low: u8) -> (pixel: u16)
    ensures
        pixel == sample(high, low),
{
    let wide: u16 = high as u16;
    proof {
        assert(((wide << 8) | (low as u16)) == wide * 256 + (low as u16)) by (bit_vector)
            requires
                wide < 256,
        ;
    }
    (wide << 8) | (low as u16)
}

/// Converts a buffer of samples, two bytes each and high byte first, to
/// grayscale: the first `src.len() / 2` bytes of `dst` receive the luma of the
/// samples in order, and the bytes of `dst` behind them stay as they were.
pub fn rgb565_buffer_to_gray(src: &[u8], dst: &mut [u8])
    requires
        src@.len() % 2 == 0,
        old(dst)@.len() >= src@.len() / 2,
    ensures
        final(dst)@.len() == old(dst)@.len(),
        final(dst)@.subrange(0, src@.len() as int / 2) == gray_seq(src@),
        final(dst)@.subrange(src@.len() as int / 2, old(dst)@.len() as int) == old(dst)@.subrange(
            src@.len() as int / 2,
            old(dst)@.len() as int,
        ),
{
    let count: usize = src.len() / 2;
    let mut j: usize = 0;
    while j < count
        invariant
            count == src@.len() / 2,
            src@.len() % 2 == 0,
            src@.len() <= usize::MAX,
            j <= count,
            dst@.len() == old(dst)@.len(),
            dst@.len() >= count,
            forall|k: int| 0 <= k < j ==> dst@[k] == gray_seq(src@)[k],
            forall|k: int| j <= k < dst@.len() ==> dst@[k] == old(dst)@[k],
        decreases count - j,
    {
        assert(2 * j + 1 < src@.len());
        let pixel = sample_of_bytes(src[2 * j], src[2 * j + 1]);
        dst[j] = rgb565_to_gray(pixel);
        j += 1;
    }
    proof {
        assert(dst@.subrange(0, count as int) =~= gray_seq(src@));
        assert(dst@.subrange(count as int, dst@.len() as int) =~= old(dst)@.subrange(
            count as int,
            dst@.len() as int,
        ));
    }
}

} // verus!
