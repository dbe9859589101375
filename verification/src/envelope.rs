//! Frame envelope: the fixed bytes that stand before the pixels of a frame so
//! that the whole is a bitmap file with eight bits per pixel and the identity
//! grayscale palette.

use vstd::prelude::*;
use crate::frame::{FRAME_HEIGHT, FRAME_WIDTH, GRAY_FRAME_BYTES};

verus! {

/// Length of the file header.
pub const FILE_HEADER_BYTES: u32 = 14;

/// Length of the bitmap-info header.
pub const INFO_HEADER_BYTES: u32 = 40;

/// Number of palette entries, four bytes each.
pub const PALETTE_ENTRIES: u32 = 256;

/// Length of the palette.
pub const PALETTE_BYTES: u32 = 1024;

/// Length of the whole envelope, which is also the offset of the pixels.
pub const ENVELOPE_BYTES: u32 = 1078;

/// Length of the file: the envelope and one grayscale frame.
pub const FILE_BYTES: u32 = 77_878;

/// Pixels per metre, declared for both directions.
pub const RESOLUTION: u32 = 3780;

/// Offset of the field that holds the pixel data's size.
pub const IMAGE_SIZE_OFFSET: usize = 34;

/// A 16-bit number as two bytes, low byte first.
pub open spec fn le16(value: u16) -> Seq<u8> {
    seq![(value as int % 256) as u8, (value as int / 256) as u8]
}

/// A 32-bit number as four bytes, low byte first.
pub open spec fn le32(value: u32) -> Seq<u8> {
    seq![
        (value as int % 256) as u8,
        (value as int / 256 % 256) as u8,
        (value as int / 65_536 % 256) as u8,
        (value as int / 16_777_216) as u8,
    ]
}

/// The magic bytes of a bitmap file: the letters B and M.
pub open spec fn magic() -> Seq<u8> {
    seq![0x42u8, 0x4Du8]
}

/// The file header: magic, file size, two reserved fields, pixel offset.
pub open spec fn file_header() -> Seq<u8> {
    magic() + le32(FILE_BYTES) + le16(0) + le16(0) + le32(ENVELOPE_BYTES)
}

/// The bitmap-info header: its own size, width, height, one plane, eight
/// bits per pixel, no compression, the pixel data's size, the resolution in
/// both directions, a palette size of zero, which stands for all 256 entries,
/// and no important colours.
pub open spec fn info_header() -> Seq<u8> {
    le32(INFO_HEADER_BYTES) + le32(FRAME_WIDTH) + le32(FRAME_HEIGHT) + le16(1) + le16(8) + le32(0)
        + le32(GRAY_FRAME_BYTES) + le32(RESOLUTION) + le32(RESOLUTION) + le32(0) + le32(0)
}

/// Byte `k` of the palette: entry `k / 4` holds its own index three times and
/// then 255.
pub open spec fn palette_byte(k: int) -> u8 {
    if k % 4 == 3 {
        255u8
    } else {
        (k / 4) as u8
    }
}

/// The identity grayscale palette.
pub open spec fn palette() -> Seq<u8> {
    Seq::new(PALETTE_BYTES as nat, |k: int| palette_byte(k))
}

/// The whole envelope.
pub open spec fn envelope() -> Seq<u8> {
    file_header() + info_header() + palette()
}

/// The number that four bytes hold, low byte first.
pub open spec fn le32_value(bytes: Seq<u8>) -> int
    recommends
        bytes.len() == 4,
{
    bytes[0] as int + 256 * bytes[1] as int + 65_536 * bytes[2] as int + 16_777_216
        * bytes[3] as int
}

/// The layout of the envelope: its length, the magic at its start, the pixel
/// data's size at its place, and every palette entry at its place.
pub proof fn envelope_layout()
    ensures
        envelope().len() == ENVELOPE_BYTES,
        envelope().len() == FILE_HEADER_BYTES + INFO_HEADER_BYTES + PALETTE_BYTES,
        FILE_BYTES == ENVELOPE_BYTES + GRAY_FRAME_BYTES,
        envelope().subrange(0, 2) == magic(),
        le32_value(envelope().subrange(2, 6)) == FILE_BYTES,
        le32_value(envelope().subrange(10, 14)) == ENVELOPE_BYTES,
        le32_value(envelope().subrange(18, 22)) == FRAME_WIDTH,
        le32_value(envelope().subrange(22, 26)) == FRAME_HEIGHT,
        envelope().subrange(26, 28) == le16(1),
        envelope().subrange(28, 30) == le16(8),
        le32_value(envelope().subrange(30, 34)) == 0,
        le32_value(envelope().subrange(34, 38)) == GRAY_FRAME_BYTES,
        le32_value(envelope().subrange(46, 50)) == 0,
        forall|i: int|
            0 <= i < 256 ==> #[trigger] envelope().subrange(54 + 4 * i, 58 + 4 * i) == seq![
                i as u8,
                i as u8,
                i as u8,
                255u8,
            ],
{
    let e = envelope();
    assert(file_header().len() == 14);
    assert(info_header().len() == 40);
    assert(e.len() == 1078);
    assert(e.subrange(0, 2) =~= magic());
    assert(e.subrange(2, 6) =~= le32(FILE_BYTES));
    assert(e.subrange(10, 14) =~= le32(ENVELOPE_BYTES));
    assert(e.subrange(18, 22) =~= le32(FRAME_WIDTH));
    assert(e.subrange(22, 26) =~= le32(FRAME_HEIGHT));
    assert(e.subrange(26, 28) =~= le16(1));
    assert(e.subrange(28, 30) =~= le16(8));
    assert(e.subrange(30, 34) =~= le32(0));
    assert(e.subrange(34, 38) =~= le32(GRAY_FRAME_BYTES));
    assert(e.subrange(46, 50) =~= le32(0));
    assert forall|i: int| 0 <= i < 256 implies #[trigger] e.subrange(54 + 4 * i, 58 + 4 * i)
        == seq![i as u8, i as u8, i as u8, 255u8] by {
        let entry = e.subrange(54 + 4 * i, 58 + 4 * i);
        assert(entry[0] == palette()[4 * i]);
        assert(entry[1] == palette()[4 * i + 1]);
        assert(entry[2] == palette()[4 * i + 2]);
        assert(entry[3] == palette()[4 * i + 3]);
        assert(entry =~= seq![i as u8, i as u8, i as u8, 255u8]);
    }
}

/// Appends a 16-bit number, low byte first.
fn push_le16(out: &mut Vec<u8>, value: u16)
    ensures
        final(out)@ == old(out)@ + le16(value),
{
    out.push((value % 256) as u8);
    out.push((value / 256) as u8);
    proof {
        assert(out@ =~= old(out)@ + le16(value));
    }
}

/// Appends a 32-bit number, low byte first.
fn push_le32(out: &mut Vec<u8>, value: u32)
    ensures
        final(out)@ == old(out)@ + le32(value),
{
    out.push((value % 256) as u8);
    out.push((value / 256 % 256) as u8);
    out.push((value / 65_536 % 256) as u8);
    out.push((value / 16_777_216) as u8);
    proof {
        assert(out@ =~= old(out)@ + le32(value));
    }
}

/// Builds the envelope.
pub fn frame_envelope() -> (bytes: Vec<u8>)
    ensures
        bytes@ == envelope(),
        bytes@.len() == ENVELOPE_BYTES,
{
    let mut bytes: Vec<u8> = Vec::new();
    bytes.push(0x42);
    bytes.push(0x4D);
    assert(bytes@ =~= magic());
    push_le32(&mut bytes, FILE_BYTES);
    push_le16(&mut bytes, 0);
    push_le16(&mut bytes, 0);
    push_le32(&mut bytes, ENVELOPE_BYTES);
    assert(bytes@ == file_header());
    let ghost head = bytes@;
    push_le32(&mut bytes, INFO_HEADER_BYTES);
    push_le32(&mut bytes, FRAME_WIDTH);
    push_le32(&mut bytes, FRAME_HEIGHT);
    push_le16(&mut bytes, 1);
    push_le16(&mut bytes, 8);
    push_le32(&mut bytes, 0);
    push_le32(&mut bytes, GRAY_FRAME_BYTES);
    push_le32(&mut bytes, RESOLUTION);
    push_le32(&mut bytes, RESOLUTION);
    push_le32(&mut bytes, 0);
    push_le32(&mut bytes, 0);
    assert(bytes@ =~= head + info_header());
    let ghost front = bytes@;
    assert(front.len() == 54);
    let mut index: u32 = 0;
    while index < PALETTE_ENTRIES
        invariant
            index <= PALETTE_ENTRIES,
            front == file_header() + info_header(),
            bytes@.len() == front.len() + 4 * index,
            bytes@.subrange(0, front.len() as int) == front,
            forall|k: int| 0 <= k < 4 * index ==> bytes@[front.len() + k] == palette_byte(k),
        decreases PALETTE_ENTRIES - index,
    {
        let ghost before = bytes@;
        let level: u8 = index as u8;
        bytes.push(level);
        bytes.push(level);
        bytes.push(level);
        bytes.push(255);
        proof {
            assert(bytes@.subrange(0, front.len() as int) =~= before.subrange(
                0,
                front.len() as int,
            ));
            assert forall|k: int| 0 <= k < 4 * (index + 1) implies bytes@[front.len() + k]
                == palette_byte(k) by {
                if k < 4 * index {
                    assert(bytes@[front.len() + k] == before[front.len() + k]);
                }
            }
        }
        index += 1;
    }
    proof {
        assert(bytes@ =~= envelope());
    }
    bytes
}

} // verus!
