//! Serial command protocol and playback dispatcher for a DFPlayer Mini audio
//! module.
//!
//! The crate is split along the path a request takes on its way to the
//! device:
//!
//! * [`control`]: the messages producers put on the command bus;
//! * [`bus`]: the bounded first-in first-out command bus itself;
//! * [`dispatcher`]: the single consumer, which owns the volume and turns one
//!   message at a time into one frame;
//! * [`dfplayer_mini`]: the catalog of device operations and the frame codec
//!   underneath it.
//!
//! Nothing in here touches the serial line or sleeps: callers perform the
//! actions the dispatcher hands out and report back what happened.

pub mod dfplayer_mini;
pub mod control;
pub mod bus;
pub mod dispatcher;
