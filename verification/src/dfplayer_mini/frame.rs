//! Frame codec: ten bytes on the wire for every command.
//!
//! ```text
//! byte 0  start            0x7E
//! byte 1  version          0xFF
//! byte 2  payload length   0x06
//! byte 3  opcode
//! byte 4  feedback flag    1 = acknowledge, 0 = do not
//! byte 5  parameter, most significant byte
//! byte 6  parameter, least significant byte
//! byte 7  checksum, most significant byte
//! byte 8  checksum, least significant byte
//! byte 9  end              0xEF
//! ```
//!
//! The checksum is the 16-bit two's complement of the sum of bytes 1 to 6.

use vstd::prelude::*;

verus! {

/// Start byte.
pub const SB: u8 = 0x7E;

/// Protocol version.
pub const VER: u8 = 0xFF;

/// Number of bytes after the length byte, checksum and end byte not counted.
pub const LEN: u8 = 0x06;

/// Feedback flag: the module is asked to acknowledge the command.
pub const FEEDBACK: u8 = 1;

/// Feedback flag: no acknowledgement wanted.
pub const NO_FEEDBACK: u8 = 0;

/// End byte.
pub const EB: u8 = 0xEF;

/// Length of a frame in bytes.
pub const FRAME_LEN: usize = 10;

/// Sum of the six bytes the checksum covers, for a frame with the given
/// opcode, feedback flag and parameter bytes.
pub open spec fn covered_sum(opcode: u8, feedback: u8, msb: u8, lsb: u8) -> int {
    VER as int + LEN as int + opcode as int + feedback as int + msb as int + lsb as int
}

/// The checksum of a frame: zero minus the covered sum, modulo 2^16.
pub open spec fn checksum(opcode: u8, feedback: u8, msb: u8, lsb: u8) -> int {
    (0 - covered_sum(opcode, feedback, msb, lsb)) % 0x1_0000
}

/// The ten bytes that carry the given opcode, feedback flag and parameter.
pub open spec fn frame_of(opcode: u8, feedback: u8, msb: u8, lsb: u8) -> Seq<u8> {
    seq![
        SB,
        VER,
        LEN,
        opcode,
        feedback,
        msb,
        lsb,
        (checksum(opcode, feedback, msb, lsb) / 0x100) as u8,
        (checksum(opcode, feedback, msb, lsb) % 0x100) as u8,
        EB,
    ]
}

/// The ten bytes that carry the given opcode, feedback flag and a 16-bit
/// parameter, most significant byte first.
pub open spec fn frame_of_word(opcode: u8, feedback: u8, param: u16) -> Seq<u8> {
    frame_of(opcode, feedback, (param / 0x100) as u8, (param % 0x100) as u8)
}

/// The checksum as computed anew from bytes 1 to 6 of a frame.
pub open spec fn derived_checksum(frame: Seq<u8>) -> int {
    (0 - (frame[1] as int + frame[2] as int + frame[3] as int + frame[4] as int + frame[5] as int
        + frame[6] as int)) % 0x1_0000
}

/// The checksum as read from bytes 7 and 8 of a frame.
pub open spec fn stored_checksum(frame: Seq<u8>) -> int {
    frame[7] as int * 0x100 + frame[8] as int
}

/// A frame the module accepts: ten bytes, the constant bytes in place, and a
/// stored checksum that matches the bytes it covers.
pub open spec fn is_frame(frame: Seq<u8>) -> bool {
    &&& frame.len() == FRAME_LEN
    &&& frame[0] == SB
    &&& frame[1] == VER
    &&& frame[2] == LEN
    &&& frame[9] == EB
    &&& stored_checksum(frame) == derived_checksum(frame)
}

/// One device operation before framing: opcode, feedback flag and the two
/// parameter bytes. A message is put together once, by [`Message::build`],
/// and does not change after that.
#[derive(Clone, Copy, Debug, PartialEq, Eq)]
pub struct Message {
    command_value: u8,
    feedback_value: u8,
    param_msb: u8,
    param_lsb: u8,
}

impl Message {
    /// The four bytes of the message: opcode, feedback flag, most and least
    /// significant byte of the parameter.
    pub closed spec fn bytes(self) -> (u8, u8, u8, u8) {
        (self.command_value, self.feedback_value, self.param_msb, self.param_lsb)
    }

    /// The checksum of this message's frame, a value below 2^16.
    pub open spec fn checksum(self) -> int {
        checksum(self.bytes().0, self.bytes().1, self.bytes().2, self.bytes().3)
    }

    /// The frame of this message.
    pub open spec fn frame(self) -> Seq<u8> {
        frame_of(self.bytes().0, self.bytes().1, self.bytes().2, self.bytes().3)
    }

    /// Puts the four bytes of a command together. Any byte values are
    /// accepted: ranges are the catalog's business.
    pub fn build(command_value: u8, feedback_value: u8, param_msb: u8, param_lsb: u8) -> (m: Self)
        ensures
            m.bytes() == (command_value, feedback_value, param_msb, param_lsb),
    {
        Self { command_value, feedback_value, param_msb, param_lsb }
    }

    /// Encodes the message as the frame to put on the wire.
    pub fn into_buffer(self) -> (buffer: [u8; 10])
        ensures
            buffer@ == self.frame(),
            is_frame(buffer@),
    {
        let (checksum_msb, checksum_lsb) = self.find_checksum();
        let buffer = [
            SB,
            VER,
            LEN,
            self.command_value,
            self.feedback_value,
            self.param_msb,
            self.param_lsb,
            checksum_msb,
            checksum_lsb,
            EB,
        ];
        proof {
            lemma_checksum_range(
                self.command_value,
                self.feedback_value,
                self.param_msb,
                self.param_lsb,
            );
            assert(buffer@ =~= self.frame());
            lemma_frame_checksum_matches(
                self.command_value,
                self.feedback_value,
                self.param_msb,
                self.param_lsb,
            );
        }
        buffer
    }

    /// Computes the checksum, most significant byte first: starting from zero,
    /// the version, the length, the opcode, the feedback flag and the two
    /// parameter bytes are subtracted in turn, wrapping at 16 bits.
    pub fn find_checksum(&self) -> (cs: (u8, u8))
        ensures
            cs.0 as int == self.checksum() / 0x100,
            cs.1 as int == self.checksum() % 0x100,
    {
        let cs: u16 = 0u16.wrapping_sub(VER as u16).wrapping_sub(LEN as u16).wrapping_sub(
            self.command_value as u16,
        ).wrapping_sub(self.feedback_value as u16).wrapping_sub(self.param_msb as u16).wrapping_sub(
            self.param_lsb as u16,
        );
        proof {
            lemma_checksum_range(
                self.command_value,
                self.feedback_value,
                self.param_msb,
                self.param_lsb,
            );
            assert(cs as int == self.checksum());
            assert((cs >> 8) as int == cs as int / 0x100 && (cs >> 8) <= 0xFF) by (bit_vector);
            assert((cs & 0xFF) as int == cs as int % 0x100 && (cs & 0xFF) <= 0xFF) by (bit_vector);
        }
        let msv: u8 = (cs >> 8) as u8;
        let lsv: u8 = (cs & 0xFF) as u8;
        (msv, lsv)
    }
}

/// Encodes opcode, feedback flag and parameter bytes as a frame. There is no
/// input this fails on.
pub fn encode(opcode: u8, feedback: u8, param_msb: u8, param_lsb: u8) -> (frame: [u8; 10])
    ensures
        frame@ == frame_of(opcode, feedback, param_msb, param_lsb),
        is_frame(frame@),
{
    Message::build(opcode, feedback, param_msb, param_lsb).into_buffer()
}

/// Splits a 16-bit parameter into its most and least significant byte.
pub(crate) fn split_word(param: u16) -> (bytes: (u8, u8))
    ensures
        bytes.0 as int == param as int / 0x100,
        bytes.1 as int == param as int % 0x100,
{
    assert(((param >> 8) & 0xFF) as int == param as int / 0x100 && ((param >> 8) & 0xFF) <= 0xFF)
        by (bit_vector);
    assert((param & 0xFF) as int == param as int % 0x100 && (param & 0xFF) <= 0xFF)
        by (bit_vector);
    (((param >> 8) & 0xFF) as u8, (param & 0xFF) as u8)
}

/// The covered sum is never zero and never reaches 2^16, so the checksum is
/// simply 2^16 minus the sum.
pub proof fn lemma_checksum_range(opcode: u8, feedback: u8, msb: u8, lsb: u8)
    ensures
        checksum(opcode, feedback, msb, lsb) == 0x1_0000 - covered_sum(opcode, feedback, msb, lsb),
        0xFAFF <= checksum(opcode, feedback, msb, lsb) <= 0xFEFB,
{
}

/// Re-deriving the checksum from bytes 1 to 6 of an encoded frame gives the
/// value stored in bytes 7 and 8, whatever the opcode, feedback flag and
/// parameter bytes are.
pub proof fn lemma_frame_checksum_matches(opcode: u8, feedback: u8, msb: u8, lsb: u8)
    ensures
        derived_checksum(frame_of(opcode, feedback, msb, lsb)) == stored_checksum(
            frame_of(opcode, feedback, msb, lsb),
        ),
        stored_checksum(frame_of(opcode, feedback, msb, lsb)) == checksum(
            opcode,
            feedback,
            msb,
            lsb,
        ),
        is_frame(frame_of(opcode, feedback, msb, lsb)),
{
    lemma_checksum_range(opcode, feedback, msb, lsb);
}

/// Encoding is a function of the message alone: two frames that each encode
/// the same message are the same ten bytes.
pub proof fn lemma_encoding_is_deterministic(m1: Message, m2: Message, f1: [u8; 10], f2: [u8; 10])
    requires
        m1 == m2,
        f1@ == m1.frame(),
        f2@ == m2.frame(),
    ensures
        f1@ == f2@,
        f1 == f2,
{
    assert(f1@ =~= f2@);
    assert forall|i: int| 0 <= i < 10 implies f1[i] == f2[i] by {
        assert(f1@[i] == f2@[i]);
    }
    vstd::array::array_len_matches_n(&f1);
}

} // verus!
