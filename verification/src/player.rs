//! Playback: which frame comes next, and what the loop around the
//! renderer has to do after each thing that happened.
//!
//! The player never touches the terminal, the clock or the frame source.
//! It is told what happened and answers with the next action; the caller
//! carries the action out and reports back.

use vstd::prelude::*;
use crate::error::RenderError;
use crate::events::{
    entries_after, fired_effects, lemma_single_check_fires_once, Effect, EventManager,
    GeometryWatch,
};
use crate::render::RenderConfig;
use crate::resize::TerminalGeometry;

verus! {

/// Where the frames come from.
#[derive(Clone, Copy, Debug, PartialEq, Eq, Structural)]
pub enum SourceKind {
    /// A picture with a single frame.
    StillImage,
    /// An animated picture whose frames are all at hand.
    Animation,
    /// A video, decoded frame by frame.
    Video,
    /// A camera.
    Camera,
}

/// How the frames of a source are played.
#[derive(Clone, Copy, Debug, PartialEq, Eq, Structural)]
pub enum PlaybackMode {
    /// One frame is drawn and playback ends at once.
    SingleFrame,
    /// The frames are played in order until the source runs out.
    Sequence,
    /// The frames are played in order, over and over.
    Cycle,
}

/// The mode in which a source is played, given whether looping was asked
/// for.
pub open spec fn mode_for(source: SourceKind, loop_animation: bool) -> PlaybackMode {
    match source {
        SourceKind::StillImage => PlaybackMode::SingleFrame,
        SourceKind::Animation => if loop_animation {
            PlaybackMode::Cycle
        } else {
            PlaybackMode::Sequence
        },
        SourceKind::Video => PlaybackMode::Sequence,
        SourceKind::Camera => if loop_animation {
            PlaybackMode::Sequence
        } else {
            PlaybackMode::SingleFrame
        },
    }
}

/// Chooses how a source is played: a still picture gives a single frame,
/// an animation is cycled when looping is asked for and played once when
/// not, a video is played once, and a camera streams when looping is asked
/// for and gives a single frame when not.
pub fn playback_mode(source: SourceKind, loop_animation: bool) -> (mode: PlaybackMode)
    ensures
        mode == mode_for(source, loop_animation),
{
    match source {
        SourceKind::StillImage => PlaybackMode::SingleFrame,
        SourceKind::Animation => if loop_animation {
            PlaybackMode::Cycle
        } else {
            PlaybackMode::Sequence
        },
        SourceKind::Video => PlaybackMode::Sequence,
        SourceKind::Camera => if loop_animation {
            PlaybackMode::Sequence
        } else {
            PlaybackMode::SingleFrame
        },
    }
}

/// A position in a list of `len` frames that are all at hand.
#[derive(Clone, Copy, Debug, PartialEq, Eq, Structural)]
pub struct FrameCursor {
    len: usize,
    position: usize,
    cyclic: bool,
}

/// The index that comes after `position` in a list of `len` frames.
pub open spec fn position_after(len: int, position: int, cyclic: bool) -> int {
    if position >= len {
        position
    } else if cyclic && position + 1 == len {
        0
    } else {
        position + 1
    }
}

/// The position reached from `position` after `steps` frames were taken.
pub open spec fn position_after_steps(len: int, position: int, cyclic: bool, steps: nat) -> int
    decreases steps,
{
    if steps == 0 {
        position
    } else {
        position_after(
            len,
            position_after_steps(len, position, cyclic, (steps - 1) as nat),
            cyclic,
        )
    }
}

/// The frame handed out at `position`, if there is one.
pub open spec fn frame_at(len: int, position: int) -> Option<usize> {
    if position < len {
        Some(position as usize)
    } else {
        None
    }
}

impl FrameCursor {
    /// Number of frames in the list.
    pub closed spec fn spec_len(&self) -> int {
        self.len as int
    }

    /// Index of the frame that is handed out next; `spec_len()` when the
    /// list is used up.
    pub closed spec fn spec_position(&self) -> int {
        self.position as int
    }

    /// Whether the list starts over after its last frame.
    pub closed spec fn spec_cyclic(&self) -> bool {
        self.cyclic
    }

    /// The position is inside the list, or just past its end where the
    /// list does not start over or is empty.
    pub open spec fn well_formed(&self) -> bool {
        &&& 0 <= self.spec_position() <= self.spec_len()
        &&& self.spec_cyclic() && self.spec_len() > 0 ==> self.spec_position() < self.spec_len()
    }

    /// A cursor before the first of `len` frames.
    pub fn new(len: usize, cyclic: bool) -> (cursor: FrameCursor)
        ensures
            cursor.well_formed(),
            cursor.spec_len() == len,
            cursor.spec_position() == 0,
            cursor.spec_cyclic() == cyclic,
    {
        FrameCursor { len, position: 0, cyclic }
    }

    /// Hands out the index of the next frame and moves on.
    ///
    /// Returns `None` exactly when the list is used up, which a cyclic
    /// list is only when it is empty. After its last frame a cyclic list
    /// starts over with its first.
    pub fn advance(&mut self) -> (frame: Option<usize>)
        requires
            old(self).well_formed(),
        ensures
            final(self).well_formed(),
            final(self).spec_len() == old(self).spec_len(),
            final(self).spec_cyclic() == old(self).spec_cyclic(),
            frame == frame_at(old(self).spec_len(), old(self).spec_position()),
            final(self).spec_position() == position_after(
                old(self).spec_len(),
                old(self).spec_position(),
                old(self).spec_cyclic(),
            ),
    {
        if self.position >= self.len {
            None
        } else {
            let frame = self.position;
            if self.cyclic && self.position + 1 == self.len {
                self.position = 0;
            } else {
                self.position = self.position + 1;
            }
            Some(frame)
        }
    }
}

/// In a cyclic list of `len` frames the frame handed out after `n` others
/// is frame `n` modulo `len`.
pub proof fn lemma_cycle_repeats(len: int, n: nat)
    requires
        len > 0,
    ensures
        position_after_steps(len, 0, true, n) == n as int % len,
        frame_at(len, position_after_steps(len, 0, true, n)) == Some((n as int % len) as usize),
    decreases n,
{
    if n > 0 {
        lemma_cycle_repeats(len, (n - 1) as nat);
        let before = (n - 1) as int % len;
        assert(0 <= before < len);
        assert(n as int % len == if before + 1 == len {
            0
        } else {
            before + 1
        }) by (nonlinear_arith)
            requires
                len > 0,
                n >= 1,
                before == (n - 1) as int % len,
        ;
    }
    assert(0 <= n as int % len < len);
}

/// In a list that does not start over, the frame handed out after `n`
/// others is frame `n` while there are frames left, and none after that.
pub proof fn lemma_sequence_ends(len: int, n: nat)
    requires
        len >= 0,
    ensures
        position_after_steps(len, 0, false, n) == if n <= len {
            n as int
        } else {
            len
        },
        n >= len ==> frame_at(len, position_after_steps(len, 0, false, n)) is None,
        n < len ==> frame_at(len, position_after_steps(len, 0, false, n)) == Some(n as usize),
    decreases n,
{
    if n > 0 {
        lemma_sequence_ends(len, (n - 1) as nat);
    }
}

/// What the player is waiting for.
#[derive(Clone, Copy, Debug, PartialEq, Eq, Structural)]
pub enum Phase {
    /// The size of the terminal before the first frame.
    Starting,
    /// The next frame of the source.
    AwaitingFrame,
    /// The end of the drawing of a frame.
    Rendering,
    /// The size of the terminal after a frame.
    Polling,
    /// The end of the pause between two frames.
    Pacing,
    /// Nothing: playback is over.
    Finished,
}

/// What the caller reports to the player.
#[derive(Clone, Copy, Debug, PartialEq, Eq, Structural)]
pub enum PlayerEvent {
    /// The source has produced a frame.
    FrameReady,
    /// The source has no more frames.
    SourceEnded,
    /// The source failed.
    SourceFailed,
    /// The frame was drawn.
    Rendered,
    /// Drawing the frame failed.
    RenderFailed(RenderError),
    /// The terminal has this size.
    Geometry(TerminalGeometry),
    /// The effects were performed and the pause is over.
    Paced,
}

/// What the player asks the caller to do.
#[derive(Debug, PartialEq, Eq)]
pub enum PlayerAction {
    /// Read the size of the terminal and report it.
    QueryGeometry,
    /// Take the next frame from the source.
    PullFrame,
    /// Draw the frame just taken.
    RenderFrame,
    /// Perform the effects in order, then sleep for the delay.
    Pace { effects: Vec<Effect>, delay_ms: u64 },
    /// Stop, with this result.
    Finish(Result<(), RenderError>),
}

/// A player's action with its list of effects as a sequence.
pub enum ActionView {
    QueryGeometry,
    PullFrame,
    RenderFrame,
    Pace { effects: Seq<Effect>, delay_ms: u64 },
    Finish(Result<(), RenderError>),
}

impl View for PlayerAction {
    type V = ActionView;

    open spec fn view(&self) -> ActionView {
        match *self {
            PlayerAction::QueryGeometry => ActionView::QueryGeometry,
            PlayerAction::PullFrame => ActionView::PullFrame,
            PlayerAction::RenderFrame => ActionView::RenderFrame,
            PlayerAction::Pace { effects, delay_ms } => ActionView::Pace {
                effects: effects@,
                delay_ms,
            },
            PlayerAction::Finish(result) => ActionView::Finish(result),
        }
    }
}

/// The state of a player: how it plays, how long it pauses, what it waits
/// for, and the checks it runs after each frame.
pub struct PlayerView {
    pub mode: PlaybackMode,
    pub delay_ms: u64,
    pub phase: Phase,
    pub watches: Seq<(GeometryWatch, Effect)>,
}

/// The state of a new player and its first action: a single frame is
/// taken at once, any other playback first reads the size of the terminal.
pub open spec fn initial_state(delay_ms: u64, mode: PlaybackMode) -> (PlayerView, ActionView) {
    if mode == PlaybackMode::SingleFrame {
        (
            PlayerView { mode, delay_ms, phase: Phase::AwaitingFrame, watches: Seq::empty() },
            ActionView::PullFrame,
        )
    } else {
        (
            PlayerView { mode, delay_ms, phase: Phase::Starting, watches: Seq::empty() },
            ActionView::QueryGeometry,
        )
    }
}

/// The player's answer to an event: its next state and the action it asks
/// for, or `None` where the event is not what the player is waiting for.
pub open spec fn step_of(state: PlayerView, event: PlayerEvent) -> Option<(PlayerView, ActionView)> {
    match (state.phase, event) {
        (Phase::Starting, PlayerEvent::Geometry(seen)) => Some(
            (
                PlayerView {
                    phase: Phase::AwaitingFrame,
                    watches: seq![(GeometryWatch { last_seen: seen }, Effect::ClearScreen)],
                    ..state
                },
                ActionView::PullFrame,
            ),
        ),
        (Phase::AwaitingFrame, PlayerEvent::FrameReady) => Some(
            (PlayerView { phase: Phase::Rendering, ..state }, ActionView::RenderFrame),
        ),
        (Phase::AwaitingFrame, PlayerEvent::SourceEnded) => Some(
            (PlayerView { phase: Phase::Finished, ..state }, ActionView::Finish(Ok(()))),
        ),
        (Phase::AwaitingFrame, PlayerEvent::SourceFailed) => Some(
            (
                PlayerView { phase: Phase::Finished, ..state },
                ActionView::Finish(Err(RenderError::FrameSource)),
            ),
        ),
        (Phase::Rendering, PlayerEvent::Rendered) => if state.mode == PlaybackMode::SingleFrame {
            Some((PlayerView { phase: Phase::Finished, ..state }, ActionView::Finish(Ok(()))))
        } else {
            Some((PlayerView { phase: Phase::Polling, ..state }, ActionView::QueryGeometry))
        },
        (Phase::Rendering, PlayerEvent::RenderFailed(e)) => Some(
            (PlayerView { phase: Phase::Finished, ..state }, ActionView::Finish(Err(e))),
        ),
        (Phase::Polling, PlayerEvent::Geometry(seen)) => Some(
            (
                PlayerView {
                    phase: Phase::Pacing,
                    watches: entries_after(state.watches, &seen),
                    ..state
                },
                ActionView::Pace {
                    effects: fired_effects(state.watches, &seen, state.watches.len() as int),
                    delay_ms: state.delay_ms,
                },
            ),
        ),
        (Phase::Pacing, PlayerEvent::Paced) => Some(
            (PlayerView { phase: Phase::AwaitingFrame, ..state }, ActionView::PullFrame),
        ),
        _ => None,
    }
}

/// Drives the playback of one source.
pub struct StreamPlayer {
    mode: PlaybackMode,
    delay_ms: u64,
    phase: Phase,
    events: EventManager<GeometryWatch, Effect>,
}

impl View for StreamPlayer {
    type V = PlayerView;

    closed spec fn view(&self) -> PlayerView {
        PlayerView {
            mode: self.mode,
            delay_ms: self.delay_ms,
            phase: self.phase,
            watches: self.events.entries(),
        }
    }
}

impl StreamPlayer {
    /// Makes a player for one source and returns it with its first action.
    pub fn new(config: &RenderConfig, mode: PlaybackMode) -> (made: (StreamPlayer, PlayerAction))
        ensures
            (made.0@, made.1@) == initial_state(config.frame_delay_ms, mode),
    {
        let events = EventManager::new();
        match mode {
            PlaybackMode::SingleFrame => (
                StreamPlayer {
                    mode,
                    delay_ms: config.frame_delay_ms,
                    phase: Phase::AwaitingFrame,
                    events,
                },
                PlayerAction::PullFrame,
            ),
            _ => (
                StreamPlayer { mode, delay_ms: config.frame_delay_ms, phase: Phase::Starting, events },
                PlayerAction::QueryGeometry,
            ),
        }
    }

    /// What the player is waiting for.
    pub fn phase(&self) -> (phase: Phase)
        ensures
            phase == self@.phase,
    {
        self.phase
    }

    /// Whether playback is over.
    pub fn is_finished(&self) -> (done: bool)
        ensures
            done == (self@.phase == Phase::Finished),
    {
        match self.phase {
            Phase::Finished => true,
            _ => false,
        }
    }

    /// Tells the player what happened and returns what to do next.
    ///
    /// The answer is that of [`step_of`]. An event that the player is not
    /// waiting for is answered with `None` and changes nothing.
    pub fn step(&mut self, event: PlayerEvent) -> (action: Option<PlayerAction>)
        ensures
            match step_of(old(self)@, event) {
                Some((state, asked)) => {
                    &&& final(self)@ == state
                    &&& action matches Some(act)
                    &&& act@ == asked
                },
                None => final(self)@ == old(self)@ && action is None,
            },
    {
        match (self.phase, event) {
            (Phase::Starting, PlayerEvent::Geometry(seen)) => {
                self.events = EventManager::new().append(
                    GeometryWatch { last_seen: seen },
                    Effect::ClearScreen,
                );
                self.phase = Phase::AwaitingFrame;
                assert(self.events.entries() =~= seq![
                    (GeometryWatch { last_seen: seen }, Effect::ClearScreen),
                ]);
                Some(PlayerAction::PullFrame)
            },
            (Phase::AwaitingFrame, PlayerEvent::FrameReady) => {
                self.phase = Phase::Rendering;
                Some(PlayerAction::RenderFrame)
            },
            (Phase::AwaitingFrame, PlayerEvent::SourceEnded) => {
                self.phase = Phase::Finished;
                Some(PlayerAction::Finish(Ok(())))
            },
            (Phase::AwaitingFrame, PlayerEvent::SourceFailed) => {
                self.phase = Phase::Finished;
                Some(PlayerAction::Finish(Err(RenderError::FrameSource)))
            },
            (Phase::Rendering, PlayerEvent::Rendered) => {
                match self.mode {
                    PlaybackMode::SingleFrame => {
                        self.phase = Phase::Finished;
                        Some(PlayerAction::Finish(Ok(())))
                    },
                    _ => {
                        self.phase = Phase::Polling;
                        Some(PlayerAction::QueryGeometry)
                    },
                }
            },
            (Phase::Rendering, PlayerEvent::RenderFailed(e)) => {
                self.phase = Phase::Finished;
                Some(PlayerAction::Finish(Err(e)))
            },
            (Phase::Polling, PlayerEvent::Geometry(seen)) => {
                let effects = self.events.run(&seen);
                self.phase = Phase::Pacing;
                Some(PlayerAction::Pace { effects, delay_ms: self.delay_ms })
            },
            (Phase::Pacing, PlayerEvent::Paced) => {
                self.phase = Phase::AwaitingFrame;
                Some(PlayerAction::PullFrame)
            },
            _ => None,
        }
    }
}

/// Frames drawn while the player answers `events` in order, starting in
/// `state`.
pub open spec fn renders_during(state: PlayerView, events: Seq<PlayerEvent>) -> nat
    decreases events.len(),
{
    if events.len() == 0 {
        0
    } else {
        match step_of(state, events[0]) {
            None => renders_during(state, events.drop_first()),
            Some((next, asked)) => (if asked is RenderFrame {
                1nat
            } else {
                0nat
            }) + renders_during(next, events.drop_first()),
        }
    }
}

/// Pauses made while the player answers `events` in order, starting in
/// `state`.
pub open spec fn pauses_during(state: PlayerView, events: Seq<PlayerEvent>) -> nat
    decreases events.len(),
{
    if events.len() == 0 {
        0
    } else {
        match step_of(state, events[0]) {
            None => pauses_during(state, events.drop_first()),
            Some((next, asked)) => (if asked is Pace {
                1nat
            } else {
                0nat
            }) + pauses_during(next, events.drop_first()),
        }
    }
}

/// A player of a single frame never pauses and draws at most one frame,
/// whatever it is told, and none once its frame is being drawn.
pub proof fn lemma_single_frame_never_pauses(state: PlayerView, events: Seq<PlayerEvent>)
    requires
        state.mode == PlaybackMode::SingleFrame,
        state.phase == Phase::AwaitingFrame || state.phase == Phase::Rendering || state.phase
            == Phase::Finished,
    ensures
        pauses_during(state, events) == 0,
        renders_during(state, events) <= 1,
        state.phase != Phase::AwaitingFrame ==> renders_during(state, events) == 0,
    decreases events.len(),
{
    if events.len() > 0 {
        match step_of(state, events[0]) {
            None => {
                lemma_single_frame_never_pauses(state, events.drop_first());
            },
            Some((next, asked)) => {
                lemma_single_frame_never_pauses(next, events.drop_first());
            },
        }
    }
}

/// A single frame that arrives and is drawn makes the player draw exactly
/// once, pause never, and finish with success.
pub proof fn lemma_single_frame_plays_once(delay_ms: u64)
    ensures
        ({
            let start = initial_state(delay_ms, PlaybackMode::SingleFrame);
            let events = seq![PlayerEvent::FrameReady, PlayerEvent::Rendered];
            &&& start.1 == ActionView::PullFrame
            &&& renders_during(start.0, events) == 1
            &&& pauses_during(start.0, events) == 0
            &&& step_of(start.0, PlayerEvent::FrameReady) matches Some((drawing, asked))
            &&& asked == ActionView::RenderFrame
            &&& step_of(drawing, PlayerEvent::Rendered) matches Some((done, last))
            &&& last == ActionView::Finish(Ok(()))
            &&& done.phase == Phase::Finished
        }),
{
    let start = initial_state(delay_ms, PlaybackMode::SingleFrame);
    let events = seq![PlayerEvent::FrameReady, PlayerEvent::Rendered];
    let drawing = PlayerView { phase: Phase::Rendering, ..start.0 };
    let done = PlayerView { phase: Phase::Finished, ..start.0 };
    let rest = events.drop_first();
    assert(rest =~= seq![PlayerEvent::Rendered]);
    assert(rest.drop_first() =~= Seq::<PlayerEvent>::empty());
    assert(events[0] == PlayerEvent::FrameReady);
    assert(rest[0] == PlayerEvent::Rendered);
    assert(renders_during(done, rest.drop_first()) == 0);
    assert(pauses_during(done, rest.drop_first()) == 0);
    assert(renders_during(drawing, rest) == 0);
    assert(pauses_during(drawing, rest) == 0);
}

/// One frame of a stream: the frame is drawn, the terminal is looked at,
/// the screen is cleared exactly when the terminal is not the size it was,
/// the player pauses for its delay, and then asks for the next frame,
/// remembering the size it saw.
pub proof fn lemma_stream_plays_frame(
    state: PlayerView,
    last: TerminalGeometry,
    seen: TerminalGeometry,
)
    requires
        state.mode != PlaybackMode::SingleFrame,
        state.phase == Phase::AwaitingFrame,
        state.watches == seq![(GeometryWatch { last_seen: last }, Effect::ClearScreen)],
    ensures
        ({
            &&& step_of(state, PlayerEvent::FrameReady) matches Some((drawing, first))
            &&& first == ActionView::RenderFrame
            &&& step_of(drawing, PlayerEvent::Rendered) matches Some((polling, second))
            &&& second == ActionView::QueryGeometry
            &&& step_of(polling, PlayerEvent::Geometry(seen)) matches Some((pacing, third))
            &&& third == ActionView::Pace {
                effects: if seen != last {
                    seq![Effect::ClearScreen]
                } else {
                    Seq::empty()
                },
                delay_ms: state.delay_ms,
            }
            &&& step_of(pacing, PlayerEvent::Paced) matches Some((waiting, fourth))
            &&& fourth == ActionView::PullFrame
            &&& waiting == PlayerView {
                watches: seq![(GeometryWatch { last_seen: seen }, Effect::ClearScreen)],
                ..state
            }
        }),
{
    let watch = GeometryWatch { last_seen: last };
    lemma_single_check_fires_once(watch, Effect::ClearScreen, &seen);
    assert(entries_after(state.watches, &seen) =~= seq![
        (GeometryWatch { last_seen: seen }, Effect::ClearScreen),
    ]);
}

} // verus!
