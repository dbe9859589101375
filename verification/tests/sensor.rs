use camera::sensor::{
    capture_done, frame_byte_length, holds_whole_frame, trigger_frames, write_frame,
    BURST_READ_COMMAND, FIFO_CLEAR_DONE, FIFO_START_CAPTURE, REG_FIFO_CONTROL, REG_FIFO_SIZE_HIGH,
    REG_FIFO_SIZE_LOW, REG_FIFO_SIZE_MID, REG_STATUS, REG_TEST, SENSOR_ADDRESS,
};

#[test]
fn register_map() {
    assert_eq!(REG_TEST, 0x00);
    assert_eq!(REG_FIFO_CONTROL, 0x04);
    assert_eq!(REG_STATUS, 0x41);
    assert_eq!(REG_FIFO_SIZE_LOW, 0x42);
    assert_eq!(REG_FIFO_SIZE_MID, 0x43);
    assert_eq!(REG_FIFO_SIZE_HIGH, 0x44);
    assert_eq!(BURST_READ_COMMAND, 0x3C);
    assert_eq!(SENSOR_ADDRESS, 0x30);
}

#[test]
fn write_sets_the_top_bit_of_the_address() {
    assert_eq!(write_frame(0x04, 0x01), [0x84, 0x01]);
    assert_eq!(write_frame(0x00, 0x55), [0x80, 0x55]);
    assert_eq!(write_frame(0x07, 0x80), [0x87, 0x80]);
    assert_eq!(write_frame(0x7F, 0x00), [0xFF, 0x00]);
}

#[test]
fn write_keeps_a_set_top_bit() {
    assert_eq!(write_frame(0x84, 0x02), [0x84, 0x02]);
    assert_eq!(write_frame(0xFF, 0xFF), [0xFF, 0xFF]);
}

#[test]
fn trigger_clears_the_flag_then_starts() {
    let frames = trigger_frames();
    assert_eq!(frames[0], [0x84, FIFO_CLEAR_DONE]);
    assert_eq!(frames[1], [0x84, FIFO_START_CAPTURE]);
    assert_eq!(frames, [[0x84, 0x01], [0x84, 0x02]]);
}

#[test]
fn done_is_one_bit_of_the_status() {
    assert!(capture_done(0x08));
    assert!(capture_done(0xFF));
    assert!(capture_done(0x0F));
    assert!(!capture_done(0x00));
    assert!(!capture_done(0xF7));
    assert!(!capture_done(0x04));
    assert!(!capture_done(0x10));
}

#[test]
fn done_agrees_with_the_mask_for_every_status() {
    for status in 0..=u8::MAX {
        assert_eq!(capture_done(status), status & 0x08 != 0);
    }
}

#[test]
fn length_is_put_together_low_byte_first() {
    assert_eq!(frame_byte_length(0x00, 0x00, 0x00), 0);
    assert_eq!(frame_byte_length(0x01, 0x00, 0x00), 1);
    assert_eq!(frame_byte_length(0x00, 0x01, 0x00), 256);
    assert_eq!(frame_byte_length(0x00, 0x00, 0x01), 65_536);
    assert_eq!(frame_byte_length(0x56, 0x34, 0x12), 0x12_3456);
    assert_eq!(frame_byte_length(0x00, 0x58, 0x02), 153_600);
    assert_eq!(frame_byte_length(0xA0, 0x86, 0x01), 100_000);
}

#[test]
fn length_drops_the_top_bit() {
    assert_eq!(frame_byte_length(0xFF, 0xFF, 0xFF), 0x7F_FFFF);
    assert_eq!(frame_byte_length(0x00, 0x00, 0x80), 0);
    assert_eq!(frame_byte_length(0x00, 0x58, 0x82), 153_600);
}

#[test]
fn whole_frame_needs_the_raw_byte_count() {
    assert!(holds_whole_frame(153_600));
    assert!(holds_whole_frame(153_601));
    assert!(holds_whole_frame(0x7F_FFFF));
    assert!(!holds_whole_frame(153_599));
    assert!(!holds_whole_frame(100_000));
    assert!(!holds_whole_frame(0));
}
