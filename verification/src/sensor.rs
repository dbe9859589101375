//! The capture controller's register protocol: which bytes go over the bus
//! for each command, and what the bytes that come back mean. The bus itself
//! belongs to the caller.

use vstd::prelude::*;
use crate::frame::RAW_FRAME_BYTES;

verus! {

/// Test register of the capture controller.
pub const REG_TEST: u8 = 0x00;

/// FIFO control register: clearing the done flag and starting a capture.
pub const REG_FIFO_CONTROL: u8 = 0x04;

/// Status register; one of its bits reports a finished capture.
pub const REG_STATUS: u8 = 0x41;

/// Low byte of the FIFO's length.
pub const REG_FIFO_SIZE_LOW: u8 = 0x42;

/// Middle byte of the FIFO's length.
pub const REG_FIFO_SIZE_MID: u8 = 0x43;

/// High byte of the FIFO's length.
pub const REG_FIFO_SIZE_HIGH: u8 = 0x44;

/// Command byte that starts a burst read of the FIFO.
pub const BURST_READ_COMMAND: u8 = 0x3C;

/// Value for the FIFO control register that clears the done flag.
pub const FIFO_CLEAR_DONE: u8 = 0x01;

/// Value for the FIFO control register that starts a capture.
pub const FIFO_START_CAPTURE: u8 = 0x02;

/// Set in the address byte of a transaction that writes a register.
pub const WRITE_FLAG: u8 = 0x80;

/// The bit of the status register that reports a finished capture.
pub const STATUS_DONE_BIT: u8 = 0x08;

/// Bus address of the image sensor on the configuration bus.
pub const SENSOR_ADDRESS: u8 = 0x30;

/// The address byte of a write to `register`: the register's number with the
/// top bit set.
pub open spec fn write_address(register: u8) -> int {
    if register >= 128 {
        register as int
    } else {
        register + 128
    }
}

/// Whether a value of the status register reports a finished capture: its
/// bit of weight eight is set.
pub open spec fn done_bit_set(status: u8) -> bool {
    (status as int / 8) % 2 == 1
}

/// The length that the three length registers report: a 24-bit number, low
/// byte first, without its top bit, which is no part of the length.
pub open spec fn fifo_length(low: u8, mid: u8, high: u8) -> int {
    low as int + 256 * mid as int + 65_536 * (high as int % 128)
}

/// The two bytes of the transaction that writes `value` to `register`.
pub fn write_frame(register: u8, value: u8) -> (frame: [u8; 2])
    ensures
        frame@ == seq![write_address(register) as u8, value],
{
    proof {
        assert((register | 0x80u8) == if register >= 128 {
            register
        } else {
            (register + 128) as u8
        }) by (bit_vector);
    }
    let frame: [u8; 2] = [register | WRITE_FLAG, value];
    proof {
        assert(frame@ =~= seq![write_address(register) as u8, value]);
    }
    frame
}

/// The transactions that trigger a capture, in the order in which they go
/// over the bus: first the done flag is cleared, then the capture starts.
pub fn trigger_frames() -> (frames: [[u8; 2]; 2])
    ensures
        frames@.len() == 2,
        frames@[0]@ == seq![(REG_FIFO_CONTROL + 128) as u8, FIFO_CLEAR_DONE],
        frames@[1]@ == seq![(REG_FIFO_CONTROL + 128) as u8, FIFO_START_CAPTURE],
{
    [write_frame(REG_FIFO_CONTROL, FIFO_CLEAR_DONE), write_frame(REG_FIFO_CONTROL, FIFO_START_CAPTURE)]
}

/// Whether a value read from the status register reports a finished capture.
pub fn capture_done(status: u8) -> (done: bool)
    ensures
        done == done_bit_set(status),
{
    proof {
        assert(((status & 0x08u8) != 0) == ((status / 8) % 2 == 1)) by (bit_vector);
    }
    status & STATUS_DONE_BIT != 0
}

/// The FIFO's length from the values of its three length registers.
pub fn frame_byte_length(low: u8, mid: u8, high: u8) -> (length: u32)
    ensures
        length == fifo_length(low, mid, high),
        length < 8_388_608,
{
    let l: u32 = low as u32;
    let m: u32 = mid as u32;
    let h: u32 = high as u32;
    proof {
        assert((((h << 16) | (m << 8) | l) & 0x7fffffu32) == l + 256 * m + 65_536 * (h % 128))
            by (bit_vector)
            requires
                l < 256,
                m < 256,
                h < 256,
        ;
    }
    ((h << 16) | (m << 8) | l) & 0x7fffff
}

/// Whether a reported length covers one whole raw frame, so that the FIFO's
/// contents can be trusted.
pub fn holds_whole_frame(length: u32) -> (enough: bool)
    ensures
        enough == (length >= RAW_FRAME_BYTES),
{
    length >= RAW_FRAME_BYTES
}

} // verus!
