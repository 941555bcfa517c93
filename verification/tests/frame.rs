use dfplayer_control::dfplayer_mini::frame::encode;
use dfplayer_control::dfplayer_mini::frame::Message;
use dfplayer_control::dfplayer_mini::frame::EB;
use dfplayer_control::dfplayer_mini::frame::FEEDBACK;
use dfplayer_control::dfplayer_mini::frame::FRAME_LEN;
use dfplayer_control::dfplayer_mini::frame::LEN;
use dfplayer_control::dfplayer_mini::frame::NO_FEEDBACK;
use dfplayer_control::dfplayer_mini::frame::SB;
use dfplayer_control::dfplayer_mini::frame::VER;

fn rederived(frame: &[u8; 10]) -> u16 {
    let mut sum: u16 = 0;
    for byte in &frame[1..7] {
        sum = sum.wrapping_add(*byte as u16);
    }
    0u16.wrapping_sub(sum)
}

fn stored(frame: &[u8; 10]) -> u16 {
    ((frame[7] as u16) << 8) | frame[8] as u16
}

#[test]
fn framing_constants() {
    assert_eq!(SB, 0x7E);
    assert_eq!(VER, 0xFF);
    assert_eq!(LEN, 0x06);
    assert_eq!(FEEDBACK, 1);
    assert_eq!(NO_FEEDBACK, 0);
    assert_eq!(EB, 0xEF);
    assert_eq!(FRAME_LEN, 10);
}

#[test]
fn encode_play_track_one() {
    assert_eq!(
        encode(0x03, 1, 0x00, 0x01),
        [0x7E, 0xFF, 0x06, 0x03, 0x01, 0x00, 0x01, 0xFE, 0xF6, 0xEF]
    );
}

#[test]
fn encode_all_zero_bytes() {
    assert_eq!(
        encode(0, 0, 0, 0),
        [0x7E, 0xFF, 0x06, 0x00, 0x00, 0x00, 0x00, 0xFE, 0xFB, 0xEF]
    );
}

#[test]
fn encode_all_ones_bytes() {
    assert_eq!(
        encode(0xFF, 0xFF, 0xFF, 0xFF),
        [0x7E, 0xFF, 0x06, 0xFF, 0xFF, 0xFF, 0xFF, 0xFA, 0xFF, 0xEF]
    );
}

#[test]
fn encode_checksum_low_byte_borrows() {
    // 0xFEFB - 0xFC = 0xFDFF: the subtraction carries into the high byte.
    assert_eq!(
        encode(0xFC, 0, 0, 0),
        [0x7E, 0xFF, 0x06, 0xFC, 0x00, 0x00, 0x00, 0xFD, 0xFF, 0xEF]
    );
}

#[test]
fn build_keeps_the_four_bytes() {
    let m = Message::build(0x06, 1, 0x12, 0x34);
    let frame = m.into_buffer();
    assert_eq!(&frame[3..7], &[0x06, 1, 0x12, 0x34]);
    assert_eq!(m, Message::build(0x06, 1, 0x12, 0x34));
    assert_ne!(m, Message::build(0x06, 1, 0x34, 0x12));
}

#[test]
fn find_checksum_of_play_track_one() {
    let m = Message::build(0x03, 1, 0, 1);
    assert_eq!(m.find_checksum(), (0xFE, 0xF6));
}

#[test]
fn find_checksum_extremes() {
    assert_eq!(Message::build(0, 0, 0, 0).find_checksum(), (0xFE, 0xFB));
    assert_eq!(Message::build(0xFF, 0xFF, 0xFF, 0xFF).find_checksum(), (0xFA, 0xFF));
}

#[test]
fn into_buffer_lays_out_the_frame() {
    let m = Message::build(0x0F, 1, 3, 7);
    let frame = m.into_buffer();
    assert_eq!(frame.len(), 10);
    assert_eq!(frame[0], 0x7E);
    assert_eq!(frame[1], 0xFF);
    assert_eq!(frame[2], 0x06);
    assert_eq!(frame[3], 0x0F);
    assert_eq!(frame[4], 1);
    assert_eq!(frame[5], 3);
    assert_eq!(frame[6], 7);
    assert_eq!((frame[7], frame[8]), m.find_checksum());
    assert_eq!(frame[9], 0xEF);
}

#[test]
fn encode_agrees_with_message() {
    assert_eq!(encode(0x12, 1, 0x01, 0x2C), Message::build(0x12, 1, 0x01, 0x2C).into_buffer());
}

#[test]
fn stored_checksum_matches_rederived_checksum() {
    for opcode in 0..=255u8 {
        for feedback in [0u8, 1, 2, 0x7F, 0xFF] {
            for msb in [0u8, 1, 0x20, 0x80, 0xFF] {
                for lsb in [0u8, 1, 0x0A, 0x99, 0xFE, 0xFF] {
                    let frame = encode(opcode, feedback, msb, lsb);
                    assert_eq!(stored(&frame), rederived(&frame));
                    assert_eq!(
                        stored(&frame) as u32,
                        0x1_0000
                            - (0xFF + 0x06 + opcode as u32 + feedback as u32 + msb as u32
                                + lsb as u32)
                    );
                }
            }
        }
    }
}

#[test]
fn encoding_twice_gives_identical_frames() {
    for opcode in [0x01u8, 0x03, 0x06, 0x14, 0x1A, 0xFF] {
        for param in [0u16, 1, 37, 0x200A, 0xFFFF] {
            let m = Message::build(opcode, FEEDBACK, (param >> 8) as u8, param as u8);
            assert_eq!(m.into_buffer(), m.into_buffer());
            assert_eq!(
                encode(opcode, FEEDBACK, (param >> 8) as u8, param as u8),
                encode(opcode, FEEDBACK, (param >> 8) as u8, param as u8)
            );
        }
    }
}

#[test]
fn frames_differ_where_messages_differ() {
    assert_ne!(encode(0x03, 1, 0, 1), encode(0x03, 1, 0, 2));
    assert_ne!(encode(0x03, 1, 0, 1), encode(0x03, 0, 0, 1));
    assert_ne!(encode(0x03, 1, 0, 1), encode(0x03, 1, 1, 0));
}
