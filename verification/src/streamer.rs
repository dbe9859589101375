//! Frame streamer: turns the sensor's raw bytes, burst by burst, into the
//! grayscale bytes of one frame, written into windows of whatever size the
//! caller has free, and counts what it has delivered against the frame's size.

use vstd::prelude::*;
use crate::codec::{gray_seq, rgb565_buffer_to_gray};
use crate::frame::GRAY_FRAME_BYTES;

verus! {

/// How many grayscale bytes go into a window of `window` bytes once
/// `delivered` bytes of the frame are out: the whole window, or what is left
/// of the frame where that is less.
pub open spec fn portion(delivered: nat, window: nat) -> nat
    recommends
        delivered <= GRAY_FRAME_BYTES,
{
    if delivered + window <= GRAY_FRAME_BYTES {
        window
    } else {
        (GRAY_FRAME_BYTES - delivered) as nat
    }
}

/// The count of delivered bytes after windows of the given sizes were served
/// in order, starting from `start`.
pub open spec fn delivered_after(start: nat, windows: Seq<nat>) -> nat
    decreases windows.len(),
{
    if windows.len() == 0 {
        start
    } else {
        let before = delivered_after(start, windows.drop_last());
        before + portion(before, windows.last())
    }
}

/// The source byte at which the burst for window `k` starts: every burst is
/// taken from the sensor's stream where the one before it ended.
pub open spec fn burst_start(start: nat, windows: Seq<nat>, k: int) -> nat {
    2 * delivered_after(start, windows.take(k))
}

/// The source byte behind the last one of the burst for window `k`.
pub open spec fn burst_end(start: nat, windows: Seq<nat>, k: int) -> nat {
    2 * delivered_after(start, windows.take(k + 1))
}

/// What the windows of the given sizes receive, one after the other, when
/// the bursts are taken in order from the sensor's stream `fifo`.
pub open spec fn produced(fifo: Seq<u8>, start: nat, windows: Seq<nat>) -> Seq<u8>
    decreases windows.len(),
{
    if windows.len() == 0 {
        Seq::empty()
    } else {
        let before = delivered_after(start, windows.drop_last());
        let after = before + portion(before, windows.last());
        produced(fifo, start, windows.drop_last()) + gray_seq(
            fifo.subrange(2 * before as int, 2 * after as int),
        )
    }
}

/// The sum of the window sizes.
pub open spec fn total_of(windows: Seq<nat>) -> nat
    decreases windows.len(),
{
    if windows.len() == 0 {
        0
    } else {
        total_of(windows.drop_last()) + windows.last()
    }
}

/// Serving windows delivers their sizes' sum, capped at one frame.
pub proof fn delivered_after_is_capped_sum(start: nat, windows: Seq<nat>)
    requires
        start <= GRAY_FRAME_BYTES,
    ensures
        start <= delivered_after(start, windows) <= GRAY_FRAME_BYTES,
        start + total_of(windows) <= GRAY_FRAME_BYTES ==> delivered_after(start, windows) == start
            + total_of(windows),
        start + total_of(windows) >= GRAY_FRAME_BYTES ==> delivered_after(start, windows)
            == GRAY_FRAME_BYTES,
    decreases windows.len(),
{
    if windows.len() > 0 {
        delivered_after_is_capped_sum(start, windows.drop_last());
    }
}

/// The grayscale bytes of a stretch of whole samples are the same stretch of
/// the stream's grayscale bytes.
pub proof fn gray_seq_of_subrange(raw: Seq<u8>, from: int, to: int)
    requires
        0 <= from <= to,
        2 * to <= raw.len(),
    ensures
        gray_seq(raw.subrange(2 * from, 2 * to)) == gray_seq(raw).subrange(from, to),
{
    assert(gray_seq(raw.subrange(2 * from, 2 * to)) =~= gray_seq(raw).subrange(from, to));
}

/// Whatever the sizes of the windows, what they receive one after the other
/// is a stretch of the byte-wise luma of the sensor's stream, in order: from
/// the count delivered at the start to the count delivered at the end, which
/// never passes one frame.
pub proof fn produced_is_codec_of_stream(fifo: Seq<u8>, start: nat, windows: Seq<nat>)
    requires
        start <= GRAY_FRAME_BYTES,
        fifo.len() >= 2 * GRAY_FRAME_BYTES,
    ensures
        delivered_after(start, windows) <= GRAY_FRAME_BYTES,
        produced(fifo, start, windows) == gray_seq(fifo).subrange(
            start as int,
            delivered_after(start, windows) as int,
        ),
    decreases windows.len(),
{
    delivered_after_is_capped_sum(start, windows);
    if windows.len() == 0 {
        assert(produced(fifo, start, windows) =~= gray_seq(fifo).subrange(
            start as int,
            start as int,
        ));
    } else {
        let front = windows.drop_last();
        let before = delivered_after(start, front);
        let after = before + portion(before, windows.last());
        produced_is_codec_of_stream(fifo, start, front);
        delivered_after_is_capped_sum(start, front);
        gray_seq_of_subrange(fifo, before as int, after as int);
        assert(gray_seq(fifo).subrange(start as int, before as int) + gray_seq(fifo).subrange(
            before as int,
            after as int,
        ) =~= gray_seq(fifo).subrange(start as int, after as int));
    }
}

/// A session whose window sizes sum to one frame delivers exactly the
/// byte-wise luma of the frame's raw bytes, in order, and nothing more.
pub proof fn session_delivers_whole_frame(fifo: Seq<u8>, windows: Seq<nat>)
    requires
        fifo.len() >= 2 * GRAY_FRAME_BYTES,
        total_of(windows) == GRAY_FRAME_BYTES,
    ensures
        produced(fifo, 0, windows) == gray_seq(fifo.subrange(0, 2 * GRAY_FRAME_BYTES as int)),
        produced(fifo, 0, windows).len() == GRAY_FRAME_BYTES,
        delivered_after(0, windows) == GRAY_FRAME_BYTES,
{
    produced_is_codec_of_stream(fifo, 0, windows);
    delivered_after_is_capped_sum(0, windows);
    gray_seq_of_subrange(fifo, 0, GRAY_FRAME_BYTES as int);
}

/// A session never produces more than one frame, however large its windows.
pub proof fn session_never_exceeds_frame(fifo: Seq<u8>, start: nat, windows: Seq<nat>)
    requires
        start <= GRAY_FRAME_BYTES,
        fifo.len() >= 2 * GRAY_FRAME_BYTES,
    ensures
        start + produced(fifo, start, windows).len() == delivered_after(start, windows),
        delivered_after(start, windows) <= GRAY_FRAME_BYTES,
{
    produced_is_codec_of_stream(fifo, start, windows);
    delivered_after_is_capped_sum(start, windows);
}

/// No source byte is read twice: a later burst starts at or behind the end of
/// every earlier one, and each burst ends where the next one starts.
pub proof fn bursts_never_overlap(start: nat, windows: Seq<nat>, earlier: int, later: int)
    requires
        start <= GRAY_FRAME_BYTES,
        0 <= earlier < later < windows.len(),
    ensures
        burst_start(start, windows, earlier) <= burst_end(start, windows, earlier),
        burst_end(start, windows, earlier) <= burst_start(start, windows, later),
        burst_end(start, windows, earlier) == burst_start(start, windows, earlier + 1),
    decreases later - earlier,
{
    assert(windows.take(earlier + 1).drop_last() =~= windows.take(earlier));
    delivered_after_is_capped_sum(start, windows.take(earlier));
    if earlier + 1 < later {
        bursts_never_overlap(start, windows, earlier + 1, later);
        assert(windows.take(earlier + 2).drop_last() =~= windows.take(earlier + 1));
    }
}

/// The state of one frame's delivery: how many of its grayscale bytes are out.
pub struct FrameStreamer {
    delivered: u32,
}

impl FrameStreamer {
    /// The number of grayscale bytes delivered so far.
    pub closed spec fn view(&self) -> nat {
        self.delivered as nat
    }

    /// Never more than one frame is delivered.
    pub open spec fn wf(&self) -> bool {
        self@ <= GRAY_FRAME_BYTES
    }

    /// A streamer at the start of a frame.
    pub fn new() -> (streamer: Self)
        ensures
            streamer.wf(),
            streamer@ == 0,
    {
        FrameStreamer { delivered: 0 }
    }

    /// The number of grayscale bytes delivered so far.
    pub fn bytes_delivered(&self) -> (count: u32)
        ensures
            count == self@,
    {
        self.delivered
    }

    /// The number of grayscale bytes of the frame still to deliver.
    pub fn remaining(&self) -> (count: u32)
        requires
            self.wf(),
        ensures
            count == GRAY_FRAME_BYTES - self@,
    {
        GRAY_FRAME_BYTES - self.delivered
    }

    /// Whether the whole frame is out.
    pub fn is_complete(&self) -> (done: bool)
        ensures
            done == (self@ >= GRAY_FRAME_BYTES),
    {
        self.delivered >= GRAY_FRAME_BYTES
    }

    /// The source byte in the sensor's stream at which the next burst starts.
    pub fn source_offset(&self) -> (offset: u32)
        requires
            self.wf(),
        ensures
            offset == 2 * self@,
    {
        2 * self.delivered
    }

    /// The number of raw bytes to read from the sensor for a window of
    /// `window_len` bytes: two for each grayscale byte that will go into it.
    pub fn burst_len(&self, window_len: usize) -> (len: usize)
        requires
            self.wf(),
        ensures
            len == 2 * portion(self@, window_len as nat),
    {
        let left: u32 = GRAY_FRAME_BYTES - self.delivered;
        if window_len <= left as usize {
            2 * window_len
        } else {
            2 * (left as usize)
        }
    }

    /// Converts one burst of raw bytes into the front of `window` and counts
    /// the bytes as delivered. The burst holds exactly the raw bytes that
    /// `burst_len` asked for; the window's bytes behind what was written stay
    /// as they were.
    pub fn fill(&mut self, raw: &[u8], window: &mut [u8]) -> (written: usize)
        requires
            old(self).wf(),
            raw@.len() == 2 * portion(old(self)@, old(window)@.len()),
        ensures
            final(self).wf(),
            written == portion(old(self)@, old(window)@.len()),
            final(self)@ == old(self)@ + written,
            final(window)@.len() == old(window)@.len(),
            final(window)@.subrange(0, written as int) == gray_seq(raw@),
            final(window)@.subrange(written as int, old(window)@.len() as int) == old(
                window,
            )@.subrange(written as int, old(window)@.len() as int),
    {
        let written: usize = raw.len() / 2;
        rgb565_buffer_to_gray(raw, window);
        self.delivered = self.delivered + written as u32;
        written
    }
}

} // verus!
