//! Messages carried on the command bus.
//!
//! A message either selects a track of the installed library or is one of
//! five transport commands. Producers that receive a bare number (a path
//! segment of a request, say) turn it into a message with
//! [`ControlMessages::try_from`]; numbers that name nothing are refused there
//! and never reach the bus.

use vstd::prelude::*;

verus! {

/// Number of the last track in the unbroken run that starts at track 1.
pub const LAST_RUN_TRACK: u16 = 37;

/// Number under which pausing is requested.
pub const PAUSE_TAG: u16 = 38;

/// Number under which resuming is requested.
pub const RESUME_TAG: u16 = 39;

/// Number under which stopping is requested.
pub const STOP_TAG: u16 = 40;

/// Number under which one volume step up is requested.
pub const INC_VOL_TAG: u16 = 41;

/// Number under which one volume step down is requested.
pub const DEC_VOL_TAG: u16 = 42;

/// Number of the one track that lies beyond the transport commands.
pub const EXTRA_TRACK: u16 = 43;

/// The unit of work on the command bus.
#[derive(Clone, Copy, Debug, PartialEq, Eq, Structural)]
pub enum ControlMessages {
    /// Play the track with this number.
    Track(u16),
    /// Pause playback.
    Pause,
    /// Resume playback.
    Resume,
    /// Stop playback.
    Stop,
    /// Raise the volume by one step.
    IncVol,
    /// Lower the volume by one step.
    DecVol,
}

/// Whether `tag` is the number of a track in the installed library.
pub open spec fn is_track_tag(tag: u16) -> bool {
    1 <= tag <= LAST_RUN_TRACK || tag == EXTRA_TRACK
}

/// The message a number stands for, if it stands for one.
pub open spec fn message_of_tag(tag: u16) -> Option<ControlMessages> {
    if is_track_tag(tag) {
        Some(ControlMessages::Track(tag))
    } else if tag == PAUSE_TAG {
        Some(ControlMessages::Pause)
    } else if tag == RESUME_TAG {
        Some(ControlMessages::Resume)
    } else if tag == STOP_TAG {
        Some(ControlMessages::Stop)
    } else if tag == INC_VOL_TAG {
        Some(ControlMessages::IncVol)
    } else if tag == DEC_VOL_TAG {
        Some(ControlMessages::DecVol)
    } else {
        None
    }
}

impl ControlMessages {
    /// A track selector is well formed when its number is in the library;
    /// transport commands always are.
    pub open spec fn wf(self) -> bool {
        self matches ControlMessages::Track(n) ==> is_track_tag(n)
    }

    /// Whether the message is a transport command, for use in contracts.
    pub open spec fn spec_is_command(&self) -> bool {
        !(self is Track)
    }

    /// Whether the message is a transport command rather than a track
    /// selector.
    #[verifier::when_used_as_spec(spec_is_command)]
    pub fn is_command(&self) -> (b: bool)
        ensures
            b == self.spec_is_command(),
    {
        match self {
            Self::Pause => true,
            Self::Resume => true,
            Self::Stop => true,
            Self::IncVol => true,
            Self::DecVol => true,
            _ => false,
        }
    }

    /// Reads a message from its number. Numbers 1 to 37 and 43 select that
    /// track, 38 to 42 are pause, resume, stop, volume up and volume down;
    /// every other number is refused.
    pub fn try_from(v: u16) -> (r: Result<Self, ()>)
        ensures
            r is Ok <==> message_of_tag(v) is Some,
            r matches Ok(m) ==> message_of_tag(v) == Some(m) && m.wf(),
    {
        if (1 <= v && v <= LAST_RUN_TRACK) || v == EXTRA_TRACK {
            Ok(Self::Track(v))
        } else if v == PAUSE_TAG {
            Ok(Self::Pause)
        } else if v == RESUME_TAG {
            Ok(Self::Resume)
        } else if v == STOP_TAG {
            Ok(Self::Stop)
        } else if v == INC_VOL_TAG {
            Ok(Self::IncVol)
        } else if v == DEC_VOL_TAG {
            Ok(Self::DecVol)
        } else {
            Err(())
        }
    }
}

} // verus!
