//! The DFPlayer Mini command set.
//!
//! Every operation of the device is a function that returns the frame to
//! send. Two operations check their argument first and refuse it with a
//! [`ValidationError`] when it is out of range; all others accept every
//! value of their parameter types. Sending the frame is the caller's part:
//! write the ten bytes, then flush.
//!
//! The framing itself lives in [`frame`].

#![allow(non_snake_case)]

pub mod frame;

use self::frame::split_word;
use self::frame::Message;
use self::frame::frame_of;
use self::frame::frame_of_word;
use self::frame::FEEDBACK;
use self::frame::NO_FEEDBACK;
use vstd::pervasive::unreached;
use vstd::prelude::*;

verus! {

/// Opcode: next track.
pub const NEXT: u8 = 0x01;

/// Opcode: previous track.
pub const PREV: u8 = 0x02;

/// Opcode: play the track with the given number.
pub const PLAY: u8 = 0x03;

/// Opcode: volume one step up.
pub const INC_VOL: u8 = 0x04;

/// Opcode: volume one step down.
pub const DEC_VOL: u8 = 0x05;

/// Opcode: set the volume.
pub const VOLUME: u8 = 0x06;

/// Opcode: select the equalizer preset.
pub const EQ: u8 = 0x07;

/// Opcode: select the playback mode.
pub const PLAYBACK_MODE: u8 = 0x08;

/// Opcode: select the playback source.
pub const PLAYBACK_SRC: u8 = 0x09;

/// Opcode: enter standby.
pub const STANDBY: u8 = 0x0A;

/// Opcode: leave standby.
pub const NORMAL: u8 = 0x0B;

/// Opcode: reset the module.
pub const RESET: u8 = 0x0C;

/// Opcode: resume playback.
pub const PLAYBACK: u8 = 0x0D;

/// Opcode: pause playback.
pub const PAUSE: u8 = 0x0E;

/// Opcode: play a track of a folder.
pub const SPEC_FOLDER: u8 = 0x0F;

/// Opcode: adjust the volume gain.
pub const VOL_ADJ: u8 = 0x10;

/// Opcode: start or stop repeated playback.
pub const REPEAT_PLAY: u8 = 0x11;

/// Opcode: play a track of the folder named MP3.
pub const USE_MP3_FOLDER: u8 = 0x12;

/// Opcode: insert an advertisement.
pub const INSERT_ADVERT: u8 = 0x13;

/// Opcode: play a track of a folder that holds up to 3000 tracks.
pub const SPEC_TRACK_3000: u8 = 0x14;

/// Opcode: stop the advertisement and go back to what was playing.
pub const STOP_ADVERT: u8 = 0x15;

/// Opcode: stop playback.
pub const STOP: u8 = 0x16;

/// Opcode: repeat a folder.
pub const REPEAT_FOLDER: u8 = 0x17;

/// Opcode: play everything in random order.
pub const RANDOM_ALL: u8 = 0x18;

/// Opcode: start or stop repeating the current track.
pub const REPEAT_CURRENT: u8 = 0x19;

/// Opcode: switch the digital-to-analog converter.
pub const SET_DAC: u8 = 0x1A;

/// Equalizer preset: normal.
pub const EQ_NORMAL: u8 = 0;

/// Equalizer preset: pop.
pub const EQ_POP: u8 = 1;

/// Equalizer preset: rock.
pub const EQ_ROCK: u8 = 2;

/// Equalizer preset: jazz.
pub const EQ_JAZZ: u8 = 3;

/// Equalizer preset: classic.
pub const EQ_CLASSIC: u8 = 4;

/// Equalizer preset: bass.
pub const EQ_BASE: u8 = 5;

/// Playback mode: repeat.
pub const REPEAT: u8 = 0;

/// Playback mode: repeat the folder.
pub const FOLDER_REPEAT: u8 = 1;

/// Playback mode: repeat one track.
pub const SINGLE_REPEAT: u8 = 2;

/// Playback mode: random.
pub const RANDOM: u8 = 3;

/// Playback source: USB stick.
pub const U: u8 = 1;

/// Playback source: memory card.
pub const TF: u8 = 2;

/// Playback source: auxiliary input.
pub const AUX: u8 = 3;

/// Playback source: none, the module sleeps.
pub const SLEEP: u8 = 4;

/// Playback source: on-board flash.
pub const FLASH: u8 = 5;

/// Value that a volume gain is added to.
pub const VOL_ADJUST: u8 = 0x10;

/// Largest volume gain the module takes.
pub const MAX_GAIN: u8 = 31;

/// Parameter of [`REPEAT_PLAY`]: stop.
pub const STOP_REPEAT: u8 = 0;

/// Parameter of [`REPEAT_PLAY`]: start.
pub const START_REPEAT: u8 = 1;

/// Why an operation was refused before any frame was built.
#[derive(Clone, Copy, Debug, PartialEq, Eq, Structural)]
pub enum ValidationError {
    /// The playback source is none of 1 to 5.
    InvalidSource(u8),
    /// The volume gain is above 31.
    InvalidGain(u8),
}

/// Whether `source` names a playback source.
pub open spec fn is_source(source: u8) -> bool {
    U <= source <= FLASH
}

/// The 16-bit parameter that names a track of a large folder: the low four
/// bits of the folder number on top of the low twelve bits of the track
/// number.
pub open spec fn large_folder_param(folder: u8, track: u16) -> u16 {
    ((folder as int % 16) * 4096 + track as int % 4096) as u16
}

/// The same parameter in shifts and masks: the folder number shifted left by
/// twelve bits, or-ed with the track number masked to twelve bits.
pub proof fn lemma_large_folder_param_is_packed(folder: u8, track: u16)
    ensures
        large_folder_param(folder, track) == ((folder as u16) << 12) | (track & 0xFFF),
{
    assert((((folder as u16) << 12) | (track & 0xFFF)) as int == (folder as int % 16) * 4096
        + track as int % 4096) by (bit_vector);
}

/// Next track.
pub fn play_next() -> (frame: [u8; 10])
    ensures
        frame@ == frame_of(NEXT, FEEDBACK, 0, 1),
{
    let m = Message::build(NEXT, FEEDBACK, 0, 1);
    m.into_buffer()
}

/// Previous track.
pub fn play_previous() -> (frame: [u8; 10])
    ensures
        frame@ == frame_of(PREV, FEEDBACK, 0, 1),
{
    let m = Message::build(PREV, FEEDBACK, 0, 1);
    m.into_buffer()
}

/// Play track `track_num`.
pub fn play(track_num: u16) -> (frame: [u8; 10])
    ensures
        frame@ == frame_of_word(PLAY, FEEDBACK, track_num),
{
    let (param_msb, param_lsb) = split_word(track_num);
    let m = Message::build(PLAY, FEEDBACK, param_msb, param_lsb);
    m.into_buffer()
}

/// Stop playback.
pub fn stop() -> (frame: [u8; 10])
    ensures
        frame@ == frame_of(STOP, FEEDBACK, 0, 0),
{
    let m = Message::build(STOP, FEEDBACK, 0, 0);
    m.into_buffer()
}

/// Play track `track_num` of the folder named MP3.
pub fn play_from_mp3_folder(track_num: u16) -> (frame: [u8; 10])
    ensures
        frame@ == frame_of_word(USE_MP3_FOLDER, FEEDBACK, track_num),
{
    let (param_msb, param_lsb) = split_word(track_num);
    let m = Message::build(USE_MP3_FOLDER, FEEDBACK, param_msb, param_lsb);
    m.into_buffer()
}

/// Interrupt playback with advertisement `track_num`.
pub fn play_advertisement(track_num: u16) -> (frame: [u8; 10])
    ensures
        frame@ == frame_of_word(INSERT_ADVERT, FEEDBACK, track_num),
{
    let (param_msb, param_lsb) = split_word(track_num);
    let m = Message::build(INSERT_ADVERT, FEEDBACK, param_msb, param_lsb);
    m.into_buffer()
}

/// Stop the advertisement and go back to what was playing.
pub fn stop_advertisement() -> (frame: [u8; 10])
    ensures
        frame@ == frame_of(STOP_ADVERT, FEEDBACK, 0, 0),
{
    let m = Message::build(STOP_ADVERT, FEEDBACK, 0, 0);
    m.into_buffer()
}

/// Volume one step up, counted by the module itself.
pub fn inc_volume() -> (frame: [u8; 10])
    ensures
        frame@ == frame_of(INC_VOL, FEEDBACK, 0, 1),
{
    let m = Message::build(INC_VOL, FEEDBACK, 0, 1);
    m.into_buffer()
}

/// Volume one step down, counted by the module itself.
pub fn dec_volume() -> (frame: [u8; 10])
    ensures
        frame@ == frame_of(DEC_VOL, FEEDBACK, 0, 1),
{
    let m = Message::build(DEC_VOL, FEEDBACK, 0, 1);
    m.into_buffer()
}

/// Set the volume. The module expects 0 to 30; the value is sent as given.
pub fn volume(level: u8) -> (frame: [u8; 10])
    ensures
        frame@ == frame_of(VOLUME, FEEDBACK, 0, level),
{
    let m = Message::build(VOLUME, FEEDBACK, 0, level);
    m.into_buffer()
}

/// Select equalizer preset `setting`.
pub fn eq_select(setting: u8) -> (frame: [u8; 10])
    ensures
        frame@ == frame_of(EQ, FEEDBACK, 0, setting),
{
    let m = Message::build(EQ, FEEDBACK, 0, setting);
    m.into_buffer()
}

/// Select the playback mode, with `track` as its 16-bit parameter.
pub fn loop_mode(track: u16) -> (frame: [u8; 10])
    ensures
        frame@ == frame_of_word(PLAYBACK_MODE, FEEDBACK, track),
{
    let (param_msb, param_lsb) = split_word(track);
    let m = Message::build(PLAYBACK_MODE, FEEDBACK, param_msb, param_lsb);
    m.into_buffer()
}

/// Select playback source `source`, which must be one of 1 to 5. Any other
/// value is refused and no frame is built.
pub fn playback_source(source: u8) -> (r: Result<[u8; 10], ValidationError>)
    ensures
        r is Ok <==> is_source(source),
        r matches Ok(frame) ==> frame@ == frame_of(PLAYBACK_SRC, FEEDBACK, 0, source),
        r matches Err(e) ==> e == ValidationError::InvalidSource(source),
{
    if (source > 0) && (source <= 5) {
        let m = Message::build(PLAYBACK_SRC, FEEDBACK, 0, source);
        Ok(m.into_buffer())
    } else {
        Err(ValidationError::InvalidSource(source))
    }
}

/// Enter standby.
pub fn standby_mode() -> (frame: [u8; 10])
    ensures
        frame@ == frame_of(STANDBY, FEEDBACK, 0, 1),
{
    let m = Message::build(STANDBY, FEEDBACK, 0, 1);
    m.into_buffer()
}

/// Leave standby.
pub fn normalMode() -> (frame: [u8; 10])
    ensures
        frame@ == frame_of(NORMAL, FEEDBACK, 0, 1),
{
    let m = Message::build(NORMAL, FEEDBACK, 0, 1);
    m.into_buffer()
}

/// Reset the module.
pub fn reset() -> (frame: [u8; 10])
    ensures
        frame@ == frame_of(RESET, FEEDBACK, 0, 1),
{
    let m = Message::build(RESET, FEEDBACK, 0, 1);
    m.into_buffer()
}

/// Resume playback. No acknowledgement is asked for.
pub fn resume() -> (frame: [u8; 10])
    ensures
        frame@ == frame_of(PLAYBACK, NO_FEEDBACK, 0, 1),
{
    let m = Message::build(PLAYBACK, NO_FEEDBACK, 0, 1);
    m.into_buffer()
}

/// Pause playback. No acknowledgement is asked for.
pub fn pause() -> (frame: [u8; 10])
    ensures
        frame@ == frame_of(PAUSE, NO_FEEDBACK, 0, 1),
{
    let m = Message::build(PAUSE, NO_FEEDBACK, 0, 1);
    m.into_buffer()
}

/// Play track `track_num` of folder `folderNum`. The two numbers are sent as
/// the two parameter bytes, folder first.
pub fn playFolder(folderNum: u8, track_num: u8) -> (frame: [u8; 10])
    ensures
        frame@ == frame_of(SPEC_FOLDER, FEEDBACK, folderNum, track_num),
{
    let m = Message::build(SPEC_FOLDER, FEEDBACK, folderNum, track_num);
    m.into_buffer()
}

/// Play track `track_num` of folder `folderNum`, for folders that hold more
/// than 255 tracks. The folder number goes into the top four bits of the
/// parameter and the track number into the low twelve; bits of either that
/// do not fit are dropped.
pub fn playLargeFolder(folderNum: u8, track_num: u16) -> (frame: [u8; 10])
    ensures
        frame@ == frame_of_word(
            SPEC_TRACK_3000,
            FEEDBACK,
            large_folder_param(folderNum, track_num),
        ),
{
    let arg: u16 = ((folderNum as u16) << 12) | (track_num & 0xfff);
    proof {
        lemma_large_folder_param_is_packed(folderNum, track_num);
    }
    let (param_msb, param_lsb) = split_word(arg);
    let m = Message::build(SPEC_TRACK_3000, FEEDBACK, param_msb, param_lsb);
    m.into_buffer()
}

/// Set the volume gain, which must be at most 31. A larger value is refused
/// and no frame is built.
pub fn volumeAdjustSet(gain: u8) -> (r: Result<[u8; 10], ValidationError>)
    ensures
        r is Ok <==> gain <= MAX_GAIN,
        r matches Ok(frame) ==> frame@ == frame_of(VOL_ADJ, FEEDBACK, 0, (VOL_ADJUST + gain) as u8),
        r matches Err(e) ==> e == ValidationError::InvalidGain(gain),
{
    if gain <= 31 {
        let m = Message::build(VOL_ADJ, FEEDBACK, 0, VOL_ADJUST + gain);
        Ok(m.into_buffer())
    } else {
        Err(ValidationError::InvalidGain(gain))
    }
}

/// Start repeated playback.
pub fn startRepeatPlay() -> (frame: [u8; 10])
    ensures
        frame@ == frame_of(REPEAT_PLAY, FEEDBACK, 0, START_REPEAT),
{
    let m = Message::build(REPEAT_PLAY, FEEDBACK, 0, START_REPEAT);
    m.into_buffer()
}

/// Stop repeated playback.
pub fn stopRepeatPlay() -> (frame: [u8; 10])
    ensures
        frame@ == frame_of(REPEAT_PLAY, FEEDBACK, 0, STOP_REPEAT),
{
    let m = Message::build(REPEAT_PLAY, FEEDBACK, 0, STOP_REPEAT);
    m.into_buffer()
}

/// Repeat folder `folder`.
pub fn repeatFolder(folder: u16) -> (frame: [u8; 10])
    ensures
        frame@ == frame_of_word(REPEAT_FOLDER, FEEDBACK, folder),
{
    let (param_msb, param_lsb) = split_word(folder);
    let m = Message::build(REPEAT_FOLDER, FEEDBACK, param_msb, param_lsb);
    m.into_buffer()
}

/// Play everything in random order.
pub fn randomAll() -> (frame: [u8; 10])
    ensures
        frame@ == frame_of(RANDOM_ALL, FEEDBACK, 0, 0),
{
    let m = Message::build(RANDOM_ALL, FEEDBACK, 0, 0);
    m.into_buffer()
}

/// Start repeating the current track.
pub fn startRepeat() -> (frame: [u8; 10])
    ensures
        frame@ == frame_of(REPEAT_CURRENT, FEEDBACK, 0, 0),
{
    let m = Message::build(REPEAT_CURRENT, FEEDBACK, 0, 0);
    m.into_buffer()
}

/// Stop repeating the current track.
pub fn stopRepeat() -> (frame: [u8; 10])
    ensures
        frame@ == frame_of(REPEAT_CURRENT, FEEDBACK, 0, 1),
{
    let m = Message::build(REPEAT_CURRENT, FEEDBACK, 0, 1);
    m.into_buffer()
}

/// Switch the digital-to-analog converter on.
pub fn startDAC() -> (frame: [u8; 10])
    ensures
        frame@ == frame_of(SET_DAC, FEEDBACK, 0, 0),
{
    let m = Message::build(SET_DAC, FEEDBACK, 0, 0);
    m.into_buffer()
}

/// Switch the digital-to-analog converter off.
pub fn stopDAC() -> (frame: [u8; 10])
    ensures
        frame@ == frame_of(SET_DAC, FEEDBACK, 0, 1),
{
    let m = Message::build(SET_DAC, FEEDBACK, 0, 1);
    m.into_buffer()
}

/// Put the module to sleep: the sleep source is selected.
pub fn sleep() -> (frame: [u8; 10])
    ensures
        frame@ == frame_of(PLAYBACK_SRC, FEEDBACK, 0, SLEEP),
{
    match playback_source(SLEEP) {
        Ok(frame) => frame,
        Err(_) => unreached(),
    }
}

/// Wake the module up: the memory card is selected as source.
pub fn wakeUp() -> (frame: [u8; 10])
    ensures
        frame@ == frame_of(PLAYBACK_SRC, FEEDBACK, 0, TF),
{
    match playback_source(TF) {
        Ok(frame) => frame,
        Err(_) => unreached(),
    }
}

} // verus!
