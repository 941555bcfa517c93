//! The playback dispatcher: the one consumer of the command bus and the one
//! owner of the volume.
//!
//! The dispatcher never touches the serial line, the clock or the
//! suspending side of the bus. It is a state machine: the caller reports an
//! [`Event`], the dispatcher moves to its next [`Phase`] and answers with
//! the one [`Action`] the caller has to perform; the outcome of that action
//! is the next event.
//!
//! ```text
//! Booting --PowerOn--> Settling --Elapsed--> Starting(SelectSource, ..)
//!     --> Starting(SetVolume, ..) --> Starting(PlayWelcome, ..) --> Idle
//!
//! Idle --Message--> Sending(Writing) --Written--> Sending(Flushing)
//!     --Flushed--> Sending(Pacing) --Elapsed--> Idle
//! ```
//!
//! Every frame goes through the same three stages: it is written, then the
//! transport is flushed, then a pacing delay is waited out. A transport that
//! fails during start-up halts the dispatcher for good. In the steady state
//! a failure drops that one command: the dispatcher goes straight to the
//! pacing delay and on to the next message. At most one frame is in flight
//! at any time.
//!
//! The volume is stepped by one for each `IncVol` and `DecVol` and is not
//! clamped to what the module accepts; a step that a byte cannot hold is
//! refused.

use crate::bus::CommandBus;
use crate::control::ControlMessages;
use crate::dfplayer_mini::frame::frame_of;
use crate::dfplayer_mini::frame::frame_of_word;
use crate::dfplayer_mini::frame::FEEDBACK;
use crate::dfplayer_mini::frame::NO_FEEDBACK;
use crate::dfplayer_mini::pause;
use crate::dfplayer_mini::play;
use crate::dfplayer_mini::playback_source;
use crate::dfplayer_mini::resume;
use crate::dfplayer_mini::stop;
use crate::dfplayer_mini::volume;
use crate::dfplayer_mini::PAUSE;
use crate::dfplayer_mini::PLAY;
use crate::dfplayer_mini::PLAYBACK;
use crate::dfplayer_mini::PLAYBACK_SRC;
use crate::dfplayer_mini::STOP;
use crate::dfplayer_mini::TF;
use crate::dfplayer_mini::VOLUME;
use vstd::pervasive::unreached;
use vstd::prelude::*;

verus! {

/// Volume the dispatcher starts with.
pub const DEFAULT_VOLUME: u8 = 25;

/// Track played at the end of start-up.
pub const WELCOME_TRACK: u16 = 37;

/// Milliseconds to wait after power-on and after each start-up frame.
pub const STARTUP_DELAY_MS: u64 = 2000;

/// Milliseconds to wait after every frame of the steady state before the
/// next message is taken.
pub const PACING_DELAY_MS: u64 = 1000;

/// The three frames of start-up, in the order in which they are sent.
#[derive(Clone, Copy, Debug, PartialEq, Eq, Structural)]
pub enum StartupStep {
    /// Select the memory card as playback source.
    SelectSource,
    /// Set the volume the dispatcher was created with.
    SetVolume,
    /// Play the welcome track.
    PlayWelcome,
}

/// How far the frame in flight has got.
#[derive(Clone, Copy, Debug, PartialEq, Eq, Structural)]
pub enum Stage {
    /// The frame is being written.
    Writing,
    /// The frame was written; the transport is being flushed.
    Flushing,
    /// The frame is out, or was given up; the delay after it is running.
    Pacing,
}

/// Where the dispatcher stands.
#[derive(Clone, Copy, Debug, PartialEq, Eq, Structural)]
pub enum Phase {
    /// Created, nothing done yet.
    Booting,
    /// Powered on; the module is given time to come up.
    Settling,
    /// A start-up frame is in flight.
    Starting(StartupStep, Stage),
    /// Waiting on the command bus.
    Idle,
    /// The frame of one message is in flight.
    Sending(Stage),
    /// Start-up failed; nothing more will be sent.
    Halted,
}

/// What the caller reports to the dispatcher.
#[derive(Clone, Copy, Debug, PartialEq, Eq, Structural)]
pub enum Event {
    /// The device has been powered on.
    PowerOn,
    /// The delay asked for has elapsed.
    Elapsed,
    /// The frame asked for was written.
    Written,
    /// The flush asked for is done.
    Flushed,
    /// The write or flush asked for failed.
    TransportFailed,
    /// This message was taken off the command bus.
    Message(ControlMessages),
}

/// What the dispatcher asks the caller to do next.
#[derive(Clone, Copy, Debug, PartialEq, Eq)]
pub enum Action {
    /// Wait this many milliseconds, then report `Elapsed`.
    Delay { ms: u64 },
    /// Write these ten bytes to the transport, then report `Written` or
    /// `TransportFailed`.
    Write { frame: [u8; 10] },
    /// Flush the transport, then report `Flushed` or `TransportFailed`.
    Flush,
    /// Take the next message off the command bus, waiting for one if need
    /// be, and report it.
    Receive,
    /// Stop: the device could not be addressed.
    Halt,
}

/// An [`Action`] with its frame as a sequence of bytes.
pub enum ActionView {
    Delay { ms: u64 },
    Write { frame: Seq<u8> },
    Flush,
    Receive,
    Halt,
}

impl View for Action {
    type V = ActionView;

    open spec fn view(&self) -> ActionView {
        match *self {
            Action::Delay { ms } => ActionView::Delay { ms },
            Action::Write { frame } => ActionView::Write { frame: frame@ },
            Action::Flush => ActionView::Flush,
            Action::Receive => ActionView::Receive,
            Action::Halt => ActionView::Halt,
        }
    }
}

/// Why the dispatcher refused an event. A refused event changes nothing.
#[derive(Clone, Copy, Debug, PartialEq, Eq, Structural)]
pub enum DispatchError {
    /// The event is not one the dispatcher waits for in its present phase.
    Unexpected,
    /// The volume stands at 255 and was to go up, or at 0 and was to go
    /// down.
    VolumeOutOfRange,
}

/// Whether a byte can hold the volume after `message`, starting from
/// `level`.
pub open spec fn in_range(level: u8, message: ControlMessages) -> bool {
    &&& message is IncVol ==> level < u8::MAX
    &&& message is DecVol ==> level > 0
}

/// The volume after `message`, starting from `level`: one up for `IncVol`,
/// one down for `DecVol`, unchanged otherwise and where a byte cannot hold
/// the step.
pub open spec fn level_after(level: u8, message: ControlMessages) -> u8 {
    if !in_range(level, message) {
        level
    } else if message is IncVol {
        (level + 1) as u8
    } else if message is DecVol {
        (level - 1) as u8
    } else {
        level
    }
}

/// The frame sent for `message` when the volume stands at `level`: play for
/// a track selector, the operation of the same name for pause, resume and
/// stop, and a set-volume frame that carries the stepped volume for `IncVol`
/// and `DecVol`.
pub open spec fn message_frame(level: u8, message: ControlMessages) -> Seq<u8> {
    match message {
        ControlMessages::Track(n) => frame_of_word(PLAY, FEEDBACK, n),
        ControlMessages::Pause => frame_of(PAUSE, NO_FEEDBACK, 0, 1),
        ControlMessages::Resume => frame_of(PLAYBACK, NO_FEEDBACK, 0, 1),
        ControlMessages::Stop => frame_of(STOP, FEEDBACK, 0, 0),
        ControlMessages::IncVol => frame_of(VOLUME, FEEDBACK, 0, level_after(level, message)),
        ControlMessages::DecVol => frame_of(VOLUME, FEEDBACK, 0, level_after(level, message)),
    }
}

/// The frame of a start-up step when the volume stands at `level`.
pub open spec fn startup_frame(step: StartupStep, level: u8) -> Seq<u8> {
    match step {
        StartupStep::SelectSource => frame_of(PLAYBACK_SRC, FEEDBACK, 0, TF),
        StartupStep::SetVolume => frame_of(VOLUME, FEEDBACK, 0, level),
        StartupStep::PlayWelcome => frame_of_word(PLAY, FEEDBACK, WELCOME_TRACK),
    }
}

/// The start-up step that follows `step`, if one does.
pub open spec fn step_after(step: StartupStep) -> Option<StartupStep> {
    match step {
        StartupStep::SelectSource => Some(StartupStep::SetVolume),
        StartupStep::SetVolume => Some(StartupStep::PlayWelcome),
        StartupStep::PlayWelcome => None,
    }
}

/// Whether a frame is with the transport in `phase`: being written or
/// flushed.
pub open spec fn in_flight(phase: Phase) -> bool {
    match phase {
        Phase::Starting(_, stage) => stage is Writing || stage is Flushing,
        Phase::Sending(stage) => stage is Writing || stage is Flushing,
        _ => false,
    }
}

/// The transition function. From a phase, a volume and an event it gives the
/// next phase, the next volume and the action to perform, or the reason why
/// the event is refused.
pub open spec fn transition(phase: Phase, level: u8, event: Event) -> Result<
    (Phase, u8, ActionView),
    DispatchError,
> {
    match (phase, event) {
        (Phase::Booting, Event::PowerOn) => Ok(
            (Phase::Settling, level, ActionView::Delay { ms: STARTUP_DELAY_MS }),
        ),
        (Phase::Settling, Event::Elapsed) => Ok(
            (
                Phase::Starting(StartupStep::SelectSource, Stage::Writing),
                level,
                ActionView::Write { frame: startup_frame(StartupStep::SelectSource, level) },
            ),
        ),
        (Phase::Starting(step, Stage::Writing), Event::Written) => Ok(
            (Phase::Starting(step, Stage::Flushing), level, ActionView::Flush),
        ),
        (Phase::Starting(step, Stage::Flushing), Event::Flushed) => Ok(
            (
                Phase::Starting(step, Stage::Pacing),
                level,
                ActionView::Delay { ms: STARTUP_DELAY_MS },
            ),
        ),
        (Phase::Starting(step, Stage::Pacing), Event::Elapsed) => match step_after(step) {
            Some(next) => Ok(
                (
                    Phase::Starting(next, Stage::Writing),
                    level,
                    ActionView::Write { frame: startup_frame(next, level) },
                ),
            ),
            None => Ok((Phase::Idle, level, ActionView::Receive)),
        },
        (Phase::Starting(_, Stage::Writing), Event::TransportFailed) => Ok(
            (Phase::Halted, level, ActionView::Halt),
        ),
        (Phase::Starting(_, Stage::Flushing), Event::TransportFailed) => Ok(
            (Phase::Halted, level, ActionView::Halt),
        ),
        (Phase::Idle, Event::Message(message)) => if in_range(level, message) {
            Ok(
                (
                    Phase::Sending(Stage::Writing),
                    level_after(level, message),
                    ActionView::Write { frame: message_frame(level, message) },
                ),
            )
        } else {
            Err(DispatchError::VolumeOutOfRange)
        },
        (Phase::Sending(Stage::Writing), Event::Written) => Ok(
            (Phase::Sending(Stage::Flushing), level, ActionView::Flush),
        ),
        (Phase::Sending(Stage::Flushing), Event::Flushed) => Ok(
            (Phase::Sending(Stage::Pacing), level, ActionView::Delay { ms: PACING_DELAY_MS }),
        ),
        (Phase::Sending(Stage::Writing), Event::TransportFailed) => Ok(
            (Phase::Sending(Stage::Pacing), level, ActionView::Delay { ms: PACING_DELAY_MS }),
        ),
        (Phase::Sending(Stage::Flushing), Event::TransportFailed) => Ok(
            (Phase::Sending(Stage::Pacing), level, ActionView::Delay { ms: PACING_DELAY_MS }),
        ),
        (Phase::Sending(Stage::Pacing), Event::Elapsed) => Ok(
            (Phase::Idle, level, ActionView::Receive),
        ),
        _ => Err(DispatchError::Unexpected),
    }
}

/// The volume after the dispatcher has taken `messages` in this order, each
/// from `Idle`, starting from `level`.
pub open spec fn level_after_all(level: u8, messages: Seq<ControlMessages>) -> u8
    decreases messages.len(),
{
    if messages.len() == 0 {
        level
    } else {
        level_after_all(level_after(level, messages.first()), messages.drop_first())
    }
}

/// The frames the dispatcher hands out for writing when it takes `messages`
/// in this order, each from `Idle`, starting from `level`. A message that is
/// refused contributes no frame.
pub open spec fn transmitted(level: u8, messages: Seq<ControlMessages>) -> Seq<Seq<u8>>
    decreases messages.len(),
{
    if messages.len() == 0 {
        Seq::empty()
    } else {
        match transition(Phase::Idle, level, Event::Message(messages.first())) {
            Ok((_, next_level, ActionView::Write { frame })) => seq![frame] + transmitted(
                next_level,
                messages.drop_first(),
            ),
            _ => transmitted(level, messages.drop_first()),
        }
    }
}

/// Whether every volume step among `messages`, taken in this order from
/// `level`, stays within a byte.
pub open spec fn all_in_range(level: u8, messages: Seq<ControlMessages>) -> bool
    decreases messages.len(),
{
    messages.len() == 0 || (in_range(level, messages.first()) && all_in_range(
        level_after(level, messages.first()),
        messages.drop_first(),
    ))
}

/// A step up from `level` hands out a set-volume frame that carries
/// `level + 1`, and the dispatcher keeps `level + 1`. Nothing holds the
/// volume within what the module accepts: from 30 the frame carries 31.
pub proof fn lemma_volume_up(level: u8)
    requires
        level < u8::MAX,
    ensures
        transition(Phase::Idle, level, Event::Message(ControlMessages::IncVol)) == Ok::<
            (Phase, u8, ActionView),
            DispatchError,
        >(
            (
                Phase::Sending(Stage::Writing),
                (level + 1) as u8,
                ActionView::Write { frame: frame_of(VOLUME, FEEDBACK, 0, (level + 1) as u8) },
            ),
        ),
        message_frame(level, ControlMessages::IncVol)[3] == VOLUME,
        message_frame(level, ControlMessages::IncVol)[5] == 0,
        message_frame(level, ControlMessages::IncVol)[6] == level + 1,
{
}

/// A step down from `level` hands out a set-volume frame that carries
/// `level - 1`, and the dispatcher keeps `level - 1`.
pub proof fn lemma_volume_down(level: u8)
    requires
        level > 0,
    ensures
        transition(Phase::Idle, level, Event::Message(ControlMessages::DecVol)) == Ok::<
            (Phase, u8, ActionView),
            DispatchError,
        >(
            (
                Phase::Sending(Stage::Writing),
                (level - 1) as u8,
                ActionView::Write { frame: frame_of(VOLUME, FEEDBACK, 0, (level - 1) as u8) },
            ),
        ),
        message_frame(level, ControlMessages::DecVol)[3] == VOLUME,
        message_frame(level, ControlMessages::DecVol)[5] == 0,
        message_frame(level, ControlMessages::DecVol)[6] == level - 1,
{
}

/// Only `IncVol` and `DecVol`, taken in `Idle`, move the volume.
pub proof fn lemma_volume_moves_on_steps_only(phase: Phase, level: u8, event: Event)
    ensures
        transition(phase, level, event) matches Ok((_, next_level, _)) ==> (next_level != level
            ==> phase is Idle && (event == Event::Message(ControlMessages::IncVol) || event
            == Event::Message(ControlMessages::DecVol))),
{
}

/// At most one frame is in flight. A frame is handed out only when none is
/// in flight, a message is taken only in `Idle`, and while a frame is in
/// flight nothing is accepted but the outcome of its write or flush.
pub proof fn lemma_one_frame_in_flight(phase: Phase, level: u8, event: Event)
    ensures
        transition(phase, level, event) matches Ok((next, _, action)) ==> {
            &&& action is Write ==> !in_flight(phase) && in_flight(next)
            &&& action is Receive <==> next is Idle
            &&& action is Halt <==> next is Halted
            &&& event is Message ==> phase is Idle
            &&& in_flight(phase) ==> event is Written || event is Flushed || event
                is TransportFailed
        },
{
}

/// Write, then flush: a flush is asked for exactly when the frame in flight
/// has just been written, and after a failed write none is asked for.
pub proof fn lemma_flush_follows_write(phase: Phase, level: u8, event: Event)
    ensures
        transition(phase, level, event) matches Ok((next, _, action)) ==> {
            &&& action is Flush <==> event is Written
            &&& action is Write ==> (next matches Phase::Starting(_, stage) && stage is Writing)
                || (next matches Phase::Sending(stage) && stage is Writing)
            &&& event is Flushed ==> (phase matches Phase::Starting(_, stage) && stage is Flushing)
                || (phase matches Phase::Sending(stage) && stage is Flushing)
        },
{
}

/// Pacing: `Idle` is entered, and the bus asked for a message, only when a
/// delay has elapsed; and whatever becomes of a frame, flushed or given up,
/// what follows is the delay of its kind, [`STARTUP_DELAY_MS`] during
/// start-up and [`PACING_DELAY_MS`] in the steady state.
pub proof fn lemma_pacing(phase: Phase, level: u8, event: Event)
    ensures
        transition(phase, level, event) matches Ok((next, _, action)) ==> {
            &&& next is Idle ==> event is Elapsed
            &&& action is Receive ==> event is Elapsed
            &&& phase is Sending && (event is Flushed || event is TransportFailed) ==> next
                == Phase::Sending(Stage::Pacing) && action == (ActionView::Delay {
                ms: PACING_DELAY_MS,
            })
            &&& phase matches Phase::Starting(step, _) ==> (event is Flushed ==> next
                == Phase::Starting(step, Stage::Pacing) && action == (ActionView::Delay {
                ms: STARTUP_DELAY_MS,
            }))
        },
{
}

/// Once start-up is over, the dispatcher is in `Idle` or `Sending` for good.
pub proof fn lemma_steady_state_is_closed(phase: Phase, level: u8, event: Event)
    requires
        phase is Idle || phase is Sending,
    ensures
        transition(phase, level, event) matches Ok((next, _, _)) ==> next is Idle || next
            is Sending,
{
}

/// The dispatcher is never stuck short of `Halted`: in every other phase
/// there is an event it accepts.
pub proof fn lemma_progress(phase: Phase, level: u8)
    requires
        !(phase is Halted),
    ensures
        exists|event: Event| (#[trigger] transition(phase, level, event)) is Ok,
{
    let event = match phase {
        Phase::Booting => Event::PowerOn,
        Phase::Settling => Event::Elapsed,
        Phase::Starting(_, Stage::Writing) => Event::Written,
        Phase::Starting(_, Stage::Flushing) => Event::Flushed,
        Phase::Starting(_, Stage::Pacing) => Event::Elapsed,
        Phase::Idle => Event::Message(ControlMessages::Stop),
        Phase::Sending(Stage::Writing) => Event::Written,
        Phase::Sending(Stage::Flushing) => Event::Flushed,
        Phase::Sending(Stage::Pacing) => Event::Elapsed,
        Phase::Halted => Event::PowerOn,
    };
    assert(transition(phase, level, event) is Ok);
}

/// A failed transport halts the dispatcher during start-up and nowhere
/// else; once halted, the dispatcher refuses every event.
pub proof fn lemma_failure_is_fatal_in_startup_only(phase: Phase, level: u8, event: Event)
    ensures
        transition(phase, level, event) matches Ok((next, _, _)) ==> (next is Halted <==> phase
            is Starting && event is TransportFailed),
        phase is Halted ==> transition(phase, level, event) is Err,
        phase is Starting && in_flight(phase) && event is TransportFailed ==> transition(
            phase,
            level,
            event,
        ) == Ok::<(Phase, u8, ActionView), DispatchError>((Phase::Halted, level, ActionView::Halt)),
{
}

/// Order is kept: the frames for messages that arrived earlier all come
/// before the frames for messages that arrived later, and the later ones
/// are framed with the volume the earlier ones left behind.
pub proof fn lemma_transmitted_in_order(
    level: u8,
    earlier: Seq<ControlMessages>,
    later: Seq<ControlMessages>,
)
    ensures
        transmitted(level, earlier + later) == transmitted(level, earlier) + transmitted(
            level_after_all(level, earlier),
            later,
        ),
        level_after_all(level, earlier + later) == level_after_all(
            level_after_all(level, earlier),
            later,
        ),
    decreases earlier.len(),
{
    if earlier.len() == 0 {
        assert(earlier + later =~= later);
        assert(transmitted(level, earlier) + transmitted(level, later) =~= transmitted(
            level,
            later,
        ));
    } else {
        let first = earlier.first();
        let next_level = level_after(level, first);
        assert((earlier + later).first() == first);
        assert((earlier + later).drop_first() =~= earlier.drop_first() + later);
        lemma_transmitted_in_order(next_level, earlier.drop_first(), later);
        if in_range(level, first) {
            assert(transmitted(level, earlier + later) =~= seq![message_frame(level, first)]
                + transmitted(next_level, earlier.drop_first() + later));
            assert(transmitted(level, earlier) =~= seq![message_frame(level, first)] + transmitted(
                next_level,
                earlier.drop_first(),
            ));
            assert(transmitted(level, earlier + later) =~= transmitted(level, earlier)
                + transmitted(level_after_all(level, earlier), later));
        } else {
            assert(next_level == level);
        }
    }
}

/// Where every volume step stays within a byte, there are as many frames
/// as messages.
pub proof fn lemma_transmitted_len(level: u8, messages: Seq<ControlMessages>)
    requires
        all_in_range(level, messages),
    ensures
        transmitted(level, messages).len() == messages.len(),
    decreases messages.len(),
{
    if messages.len() > 0 {
        lemma_transmitted_len(level_after(level, messages.first()), messages.drop_first());
    }
}

/// One frame per message, in arrival order: where every volume step stays
/// within a byte, frame `i` is the frame of message `i` at the volume the
/// messages before it left behind. Nothing is merged, dropped or moved
/// ahead.
pub proof fn lemma_frame_per_message(level: u8, messages: Seq<ControlMessages>, i: int)
    requires
        all_in_range(level, messages),
        0 <= i < messages.len(),
    ensures
        transmitted(level, messages).len() == messages.len(),
        transmitted(level, messages)[i] == message_frame(
            level_after_all(level, messages.take(i)),
            messages[i],
        ),
    decreases messages.len(),
{
    let first = messages.first();
    let rest = messages.drop_first();
    let next_level = level_after(level, first);
    lemma_transmitted_len(next_level, rest);
    assert(transmitted(level, messages) =~= seq![message_frame(level, first)] + transmitted(
        next_level,
        rest,
    ));
    if i == 0 {
        assert(messages.take(0) =~= Seq::<ControlMessages>::empty());
    } else {
        lemma_frame_per_message(next_level, rest, i - 1);
        assert(messages.take(i).first() == first);
        assert(messages.take(i).drop_first() =~= rest.take(i - 1));
        assert(rest[i - 1] == messages[i]);
    }
}

/// The dispatcher's state: the current volume and the phase.
#[derive(Debug)]
pub struct Dispatcher {
    level: u8,
    phase: Phase,
}

impl Dispatcher {
    /// The current volume, for use in contracts.
    pub closed spec fn spec_volume(&self) -> u8 {
        self.level
    }

    /// The current phase, for use in contracts.
    pub closed spec fn spec_phase(&self) -> Phase {
        self.phase
    }

    /// A dispatcher about to boot, with the volume at [`DEFAULT_VOLUME`].
    pub fn new() -> (d: Self)
        ensures
            d.volume() == DEFAULT_VOLUME,
            d.phase() == Phase::Booting,
    {
        Dispatcher { level: DEFAULT_VOLUME, phase: Phase::Booting }
    }

    /// A dispatcher about to boot, with the volume at `level`.
    pub fn with_volume(level: u8) -> (d: Self)
        ensures
            d.volume() == level,
            d.phase() == Phase::Booting,
    {
        Dispatcher { level, phase: Phase::Booting }
    }

    /// The current volume.
    #[verifier::when_used_as_spec(spec_volume)]
    pub fn volume(&self) -> (level: u8)
        ensures
            level == self.spec_volume(),
    {
        self.level
    }

    /// The current phase.
    #[verifier::when_used_as_spec(spec_phase)]
    pub fn phase(&self) -> (phase: Phase)
        ensures
            phase == self.spec_phase(),
    {
        self.phase
    }

    /// Takes one event and answers with the action to perform, as
    /// [`transition`] lays down. An event that is refused leaves the
    /// dispatcher as it was.
    pub fn step(&mut self, event: Event) -> (r: Result<Action, DispatchError>)
        ensures
            match transition(old(self).phase(), old(self).volume(), event) {
                Ok((phase, level, action)) => {
                    &&& r matches Ok(a)
                    &&& a@ == action
                    &&& final(self).phase() == phase
                    &&& final(self).volume() == level
                },
                Err(e) => r == Err::<Action, DispatchError>(e) && *final(self) == *old(self),
            },
    {
        match (self.phase, event) {
            (Phase::Booting, Event::PowerOn) => {
                self.phase = Phase::Settling;
                Ok(Action::Delay { ms: STARTUP_DELAY_MS })
            },
            (Phase::Settling, Event::Elapsed) => {
                self.phase = Phase::Starting(StartupStep::SelectSource, Stage::Writing);
                Ok(Action::Write { frame: self.startup(StartupStep::SelectSource) })
            },
            (Phase::Starting(step, Stage::Writing), Event::Written) => {
                self.phase = Phase::Starting(step, Stage::Flushing);
                Ok(Action::Flush)
            },
            (Phase::Starting(step, Stage::Flushing), Event::Flushed) => {
                self.phase = Phase::Starting(step, Stage::Pacing);
                Ok(Action::Delay { ms: STARTUP_DELAY_MS })
            },
            (Phase::Starting(step, Stage::Pacing), Event::Elapsed) => {
                let next = match step {
                    StartupStep::SelectSource => StartupStep::SetVolume,
                    StartupStep::SetVolume => StartupStep::PlayWelcome,
                    StartupStep::PlayWelcome => {
                        self.phase = Phase::Idle;
                        return Ok(Action::Receive);
                    },
                };
                self.phase = Phase::Starting(next, Stage::Writing);
                Ok(Action::Write { frame: self.startup(next) })
            },
            (Phase::Starting(_, Stage::Writing), Event::TransportFailed)
            | (Phase::Starting(_, Stage::Flushing), Event::TransportFailed) => {
                self.phase = Phase::Halted;
                Ok(Action::Halt)
            },
            (Phase::Idle, Event::Message(message)) => self.dispatch(message),
            (Phase::Sending(Stage::Writing), Event::Written) => {
                self.phase = Phase::Sending(Stage::Flushing);
                Ok(Action::Flush)
            },
            (Phase::Sending(Stage::Flushing), Event::Flushed)
            | (Phase::Sending(Stage::Writing), Event::TransportFailed)
            | (Phase::Sending(Stage::Flushing), Event::TransportFailed) => {
                self.phase = Phase::Sending(Stage::Pacing);
                Ok(Action::Delay { ms: PACING_DELAY_MS })
            },
            (Phase::Sending(Stage::Pacing), Event::Elapsed) => {
                self.phase = Phase::Idle;
                Ok(Action::Receive)
            },
            _ => Err(DispatchError::Unexpected),
        }
    }

    /// Builds the frame of a start-up step.
    fn startup(&self, step: StartupStep) -> (frame: [u8; 10])
        ensures
            frame@ == startup_frame(step, self.volume()),
    {
        match step {
            StartupStep::SelectSource => match playback_source(TF) {
                Ok(frame) => frame,
                Err(_) => unreached(),
            },
            StartupStep::SetVolume => volume(self.level),
            StartupStep::PlayWelcome => play(WELCOME_TRACK),
        }
    }

    /// The transition out of `Idle`: a transport command maps to its
    /// operation, a volume step first moves the volume and then sends it, a
    /// track selector plays that track.
    fn dispatch(&mut self, message: ControlMessages) -> (r: Result<Action, DispatchError>)
        requires
            old(self).phase() == Phase::Idle,
        ensures
            in_range(old(self).volume(), message) ==> {
                &&& r matches Ok(a)
                &&& a@ == (ActionView::Write { frame: message_frame(old(self).volume(), message) })
                &&& final(self).phase() == Phase::Sending(Stage::Writing)
                &&& final(self).volume() == level_after(old(self).volume(), message)
            },
            !in_range(old(self).volume(), message) ==> {
                &&& r == Err::<Action, DispatchError>(DispatchError::VolumeOutOfRange)
                &&& *final(self) == *old(self)
            },
    {
        let frame = if message.is_command() {
            match message {
                ControlMessages::Pause => pause(),
                ControlMessages::Resume => resume(),
                ControlMessages::Stop => stop(),
                ControlMessages::IncVol => {
                    if self.level == u8::MAX {
                        return Err(DispatchError::VolumeOutOfRange);
                    }
                    self.level = self.level + 1;
                    volume(self.level)
                },
                ControlMessages::DecVol => {
                    if self.level == 0 {
                        return Err(DispatchError::VolumeOutOfRange);
                    }
                    self.level = self.level - 1;
                    volume(self.level)
                },
                ControlMessages::Track(_) => unreached(),
            }
        } else {
            match message {
                ControlMessages::Track(song) => play(song),
                _ => unreached(),
            }
        };
        self.phase = Phase::Sending(Stage::Writing);
        Ok(Action::Write { frame })
    }

    /// Takes the oldest message off `bus`, if the dispatcher is idle and a
    /// message is waiting, and steps on it. `Ok(None)` says that the bus was
    /// empty. Out of `Idle` the bus is not touched. A message whose volume
    /// step is refused is dropped.
    pub fn poll(&mut self, bus: &mut CommandBus) -> (r: Result<Option<Action>, DispatchError>)
        ensures
            old(self).phase() != Phase::Idle ==> {
                &&& r == Err::<Option<Action>, DispatchError>(DispatchError::Unexpected)
                &&& *final(self) == *old(self)
                &&& final(bus)@ == old(bus)@
            },
            old(self).phase() == Phase::Idle && old(bus)@.len() == 0 ==> {
                &&& r == Ok::<Option<Action>, DispatchError>(None)
                &&& *final(self) == *old(self)
                &&& final(bus)@ == old(bus)@
            },
            old(self).phase() == Phase::Idle && old(bus)@.len() > 0 ==> {
                &&& final(bus)@ == old(bus)@.drop_first()
                &&& match transition(
                    Phase::Idle,
                    old(self).volume(),
                    Event::Message(old(bus)@.first()),
                ) {
                    Ok((phase, level, action)) => {
                        &&& r matches Ok(Some(a))
                        &&& a@ == action
                        &&& final(self).phase() == phase
                        &&& final(self).volume() == level
                    },
                    Err(e) => r == Err::<Option<Action>, DispatchError>(e) && *final(self) == *old(
                        self,
                    ),
                }
            },
    {
        if self.phase != Phase::Idle {
            return Err(DispatchError::Unexpected);
        }
        match bus.try_dequeue() {
            None => Ok(None),
            Some(message) => match self.step(Event::Message(message)) {
                Ok(action) => Ok(Some(action)),
                Err(e) => Err(e),
            },
        }
    }
}

} // verus!
