//! What the bridge hears from a Qobuz Connect session and says to it, as
//! plain values.

use crate::num::{bits_u32, wrap_u32};
use crate::sonos::PlayState;
use qonductor::msg::PositionExt;
use vstd::prelude::*;

verus! {

/// Playing state of a renderer.
#[derive(Debug, Clone, Copy, PartialEq, Eq, Structural)]
pub enum PlayingState {
    Unknown,
    Stopped,
    Playing,
    Paused,
}

impl PlayingState {
    /// The number that stands for the state on the wire.
    pub open spec fn code(self) -> i32 {
        match self {
            PlayingState::Unknown => 0,
            PlayingState::Stopped => 1,
            PlayingState::Playing => 2,
            PlayingState::Paused => 3,
        }
    }

    /// The state that a number on the wire stands for.
    pub open spec fn of_code(code: i32) -> Option<PlayingState> {
        if code == 0 {
            Some(PlayingState::Unknown)
        } else if code == 1 {
            Some(PlayingState::Stopped)
        } else if code == 2 {
            Some(PlayingState::Playing)
        } else if code == 3 {
            Some(PlayingState::Paused)
        } else {
            None
        }
    }
}

/// Buffering state of a renderer.
#[derive(Debug, Clone, Copy, PartialEq, Eq, Structural)]
pub enum BufferState {
    Buffering,
    Ready,
}

impl BufferState {
    /// The number that stands for the state on the wire.
    pub open spec fn code(self) -> i32 {
        match self {
            BufferState::Buffering => 1,
            BufferState::Ready => 2,
        }
    }
}

/// `i32::from(qonductor::PlayingState)`: the number of a playing state is its
/// discriminant, 0 for unknown, 1 for stopped, 2 for playing, 3 for paused.
#[verifier::external_body]
fn playing_state_code(state: PlayingState) -> (r: i32)
    ensures
        r == state.code(),
{
    let outside = match state {
        PlayingState::Unknown => qonductor::PlayingState::Unknown,
        PlayingState::Stopped => qonductor::PlayingState::Stopped,
        PlayingState::Playing => qonductor::PlayingState::Playing,
        PlayingState::Paused => qonductor::PlayingState::Paused,
    };
    outside.into()
}

/// `qonductor::PlayingState::try_from(i32)`: the four numbers of the playing
/// states give those states, every other number gives none.
#[verifier::external_body]
fn playing_state_of(code: i32) -> (r: Option<PlayingState>)
    ensures
        r == PlayingState::of_code(code),
{
    match qonductor::PlayingState::try_from(code) {
        Ok(qonductor::PlayingState::Unknown) => Some(PlayingState::Unknown),
        Ok(qonductor::PlayingState::Stopped) => Some(PlayingState::Stopped),
        Ok(qonductor::PlayingState::Playing) => Some(PlayingState::Playing),
        Ok(qonductor::PlayingState::Paused) => Some(PlayingState::Paused),
        Err(_) => None,
    }
}

/// `i32::from(qonductor::BufferState)`: the number of a buffer state is its
/// discriminant, 1 while buffering and 2 when all is well.
#[verifier::external_body]
fn buffer_state_code(state: BufferState) -> (r: i32)
    ensures
        r == state.code(),
{
    let outside = match state {
        BufferState::Buffering => qonductor::BufferState::Buffering,
        BufferState::Ready => qonductor::BufferState::Ok,
    };
    outside.into()
}

/// A playback position and the moment, in milliseconds of Unix time, at which
/// it was taken.
#[derive(Debug, Clone, Copy, PartialEq, Eq, Structural)]
pub struct Position {
    pub timestamp: Option<u64>,
    pub value: Option<u32>,
}

/// `qonductor::msg::Position::now`: the given position, stamped with the
/// system clock. Which time the stamp holds is left open. It panics where the
/// system clock stands before the Unix epoch, which no argument decides.
#[verifier::external_body]
fn position_now(value: u32) -> (r: Position)
    ensures
        r.value == Some(value),
        r.timestamp is Some,
{
    let position = qonductor::msg::Position::now(value);
    Position { timestamp: position.timestamp, value: position.value }
}

/// Version of a queue.
#[derive(Debug, Clone, Copy, PartialEq, Eq, Structural)]
pub struct QueueVersion {
    pub major: Option<u64>,
    pub minor: Option<i32>,
}

/// A track in a Qobuz queue.
#[derive(Debug, Clone, Copy, PartialEq, Eq, Structural)]
pub struct QueueTrackRef {
    pub queue_item_id: u64,
    pub track_id: Option<u32>,
}

/// What a renderer reports of its playback.
#[derive(Debug, Clone, Copy, PartialEq, Eq, Structural)]
pub struct QueueRendererState {
    pub playing_state: Option<i32>,
    pub buffer_state: Option<i32>,
    pub current_position: Option<Position>,
    pub duration: Option<u32>,
    pub queue_version: Option<QueueVersion>,
    pub current_queue_item_id: Option<i32>,
    pub next_queue_item_id: Option<i32>,
}

/// A report of playback, whatever moment its position is stamped with.
pub struct ReportView {
    pub playing_state: Option<i32>,
    pub buffer_state: Option<i32>,
    pub position_ms: Option<u32>,
    pub stamped: bool,
    pub duration: Option<u32>,
    pub queue_version: Option<QueueVersion>,
    pub current_queue_item_id: Option<i32>,
    pub next_queue_item_id: Option<i32>,
}

impl View for QueueRendererState {
    type V = ReportView;

    open spec fn view(&self) -> ReportView {
        ReportView {
            playing_state: self.playing_state,
            buffer_state: self.buffer_state,
            position_ms: match self.current_position {
                Some(p) => p.value,
                None => None,
            },
            stamped: match self.current_position {
                Some(p) => p.timestamp is Some,
                None => false,
            },
            duration: self.duration,
            queue_version: self.queue_version,
            current_queue_item_id: self.current_queue_item_id,
            next_queue_item_id: self.next_queue_item_id,
        }
    }
}

/// The report of a playback.
pub open spec fn report(
    state: PlayingState,
    buffer_state: BufferState,
    position_ms: u32,
    duration_ms: Option<u32>,
    queue_item_id: Option<i32>,
    next_queue_item_id: Option<i32>,
) -> ReportView {
    ReportView {
        playing_state: Some(state.code()),
        buffer_state: Some(buffer_state.code()),
        position_ms: Some(position_ms),
        stamped: true,
        duration: duration_ms,
        queue_version: None,
        current_queue_item_id: queue_item_id,
        next_queue_item_id,
    }
}

/// The report of a playback at a stamped position.
pub open spec fn renderer_state(
    state: PlayingState,
    buffer_state: BufferState,
    position: Position,
    duration_ms: Option<u32>,
    queue_item_id: Option<i32>,
    next_queue_item_id: Option<i32>,
) -> QueueRendererState {
    QueueRendererState {
        playing_state: Some(state.code()),
        buffer_state: Some(buffer_state.code()),
        current_position: Some(position),
        duration: duration_ms,
        queue_version: None,
        current_queue_item_id: queue_item_id,
        next_queue_item_id,
    }
}

/// Builds the report of a playback at a stamped position.
pub fn renderer_state_at(
    state: PlayingState,
    buffer_state: BufferState,
    position: Position,
    duration_ms: Option<u32>,
    queue_item_id: Option<i32>,
    next_queue_item_id: Option<i32>,
) -> (r: QueueRendererState)
    ensures
        r == renderer_state(
            state,
            buffer_state,
            position,
            duration_ms,
            queue_item_id,
            next_queue_item_id,
        ),
{
    QueueRendererState {
        playing_state: Some(playing_state_code(state)),
        buffer_state: Some(buffer_state_code(buffer_state)),
        current_position: Some(position),
        duration: duration_ms,
        queue_version: None,
        current_queue_item_id: queue_item_id,
        next_queue_item_id,
    }
}

/// Builds the report of a playback, with its position stamped now.
pub fn build_renderer_state(
    state: PlayingState,
    buffer_state: BufferState,
    position_ms: u32,
    duration_ms: Option<u32>,
    queue_item_id: Option<i32>,
    next_queue_item_id: Option<i32>,
) -> (r: QueueRendererState)
    ensures
        r@ == report(
            state,
            buffer_state,
            position_ms,
            duration_ms,
            queue_item_id,
            next_queue_item_id,
        ),
{
    let position = position_now(position_ms);
    renderer_state_at(
        state,
        buffer_state,
        position,
        duration_ms,
        queue_item_id,
        next_queue_item_id,
    )
}

/// What a renderer reports when it becomes the active one.
#[derive(Debug, Clone, Copy, PartialEq, Eq, Structural)]
pub struct ActivationState {
    pub muted: bool,
    pub volume: u32,
    /// Maximum audio quality capability level, up to 4 (HiRes 192kHz).
    pub max_quality: i32,
    pub playback: QueueRendererState,
}

pub struct ActivationView {
    pub muted: bool,
    pub volume: u32,
    pub max_quality: i32,
    pub playback: ReportView,
}

impl View for ActivationState {
    type V = ActivationView;

    open spec fn view(&self) -> ActivationView {
        ActivationView {
            muted: self.muted,
            volume: self.volume,
            max_quality: self.max_quality,
            playback: self.playback@,
        }
    }
}

/// A command to play, pause, seek or skip.
#[derive(Debug, Clone, Copy, PartialEq, Eq, Structural)]
pub struct SetState {
    pub playing_state: Option<i32>,
    pub current_position: Option<u32>,
    pub current_queue_item: Option<QueueTrackRef>,
}

impl SetState {
    /// The playing state that the command names, if it names a known one.
    pub open spec fn wanted(self) -> Option<PlayingState> {
        match self.playing_state {
            Some(code) => PlayingState::of_code(code),
            None => None,
        }
    }

    /// The playing state that the command names, if it names a known one.
    pub fn state(&self) -> (r: Option<PlayingState>)
        ensures
            r == self.wanted(),
    {
        match self.playing_state {
            Some(code) => playing_state_of(code),
            None => None,
        }
    }
}

/// A command to change the volume.
#[derive(Debug, Clone, Copy, PartialEq, Eq, Structural)]
pub struct SetVolume {
    pub volume: Option<u32>,
}

/// A command from the Qobuz app; each one wants an answer.
#[derive(Debug, Clone, Copy, PartialEq, Eq, Structural)]
pub enum Command {
    SetState(SetState),
    SetActive,
    SetVolume(SetVolume),
    Heartbeat,
}

/// The whole queue, as the server sends it.
#[derive(Debug)]
pub struct QueueStateUpdated {
    pub queue_version: Option<QueueVersion>,
    pub tracks: Vec<QueueTrackRef>,
}

/// A queue that replaces the current one and starts at a position.
#[derive(Debug)]
pub struct QueueLoadTracks {
    pub queue_version: Option<QueueVersion>,
    pub tracks: Vec<QueueTrackRef>,
    pub queue_position: Option<u32>,
}

/// Tracks added at the end of the queue.
#[derive(Debug)]
pub struct QueueTracksAdded {
    pub queue_version: Option<QueueVersion>,
    pub tracks: Vec<QueueTrackRef>,
}

/// Tracks inserted behind a queue item.
#[derive(Debug)]
pub struct QueueTracksInserted {
    pub queue_version: Option<QueueVersion>,
    pub tracks: Vec<QueueTrackRef>,
    pub insert_after: Option<i32>,
}

/// Queue items taken out of the queue.
#[derive(Debug)]
pub struct QueueTracksRemoved {
    pub queue_version: Option<QueueVersion>,
    pub queue_item_ids: Vec<u32>,
}

/// Queue items moved behind another queue item.
#[derive(Debug)]
pub struct QueueTracksReordered {
    pub queue_version: Option<QueueVersion>,
    pub queue_item_ids: Vec<u32>,
    pub insert_after: Option<u32>,
}

/// Playback of the renderer that was active before.
#[derive(Debug, Clone, Copy, PartialEq, Eq, Structural)]
pub struct RendererState {
    pub playing_state: Option<i32>,
    pub current_position: Option<Position>,
    pub current_queue_index: Option<u32>,
}

/// A broadcast of a renderer's playback.
#[derive(Debug, Clone, Copy, PartialEq, Eq, Structural)]
pub struct RendererStateUpdated {
    pub state: Option<RendererState>,
}

impl RendererStateUpdated {
    /// The position that the broadcast holds.
    pub open spec fn position_value(self) -> Option<u32> {
        match self.state {
            Some(s) => match s.current_position {
                Some(p) => p.value,
                None => None,
            },
            None => None,
        }
    }

    /// The playing state that the broadcast holds, if it is a known one.
    pub open spec fn playing(self) -> Option<PlayingState> {
        match self.state {
            Some(s) => match s.playing_state {
                Some(code) => PlayingState::of_code(code),
                None => None,
            },
            None => None,
        }
    }

    /// The position that the broadcast holds.
    pub fn position(&self) -> (r: Option<u32>)
        ensures
            r == self.position_value(),
    {
        match self.state {
            Some(s) => match s.current_position {
                Some(p) => p.value,
                None => None,
            },
            None => None,
        }
    }

    /// The playing state that the broadcast holds, if it is a known one.
    pub fn playing_state(&self) -> (r: Option<PlayingState>)
        ensures
            r == self.playing(),
    {
        match self.state {
            Some(s) => match s.playing_state {
                Some(code) => playing_state_of(code),
                None => None,
            },
            None => None,
        }
    }
}

/// Something that the session informs the renderer of.
#[derive(Debug)]
pub enum Notification {
    Deactivated,
    QueueState(QueueStateUpdated),
    QueueLoadTracks(QueueLoadTracks),
    LoopModeSet,
    ShuffleModeSet,
    RestoreState(RendererStateUpdated),
    QueueTracksAdded(QueueTracksAdded),
    QueueTracksInserted(QueueTracksInserted),
    QueueTracksRemoved(QueueTracksRemoved),
    QueueTracksReordered(QueueTracksReordered),
    Connected,
    Disconnected,
    DeviceRegistered { device_uuid: [u8; 16], renderer_id: u64, api_jwt: String },
    SessionClosed,
    /// Any other notification, such as a broadcast from another renderer.
    Other,
}

/// An event of a session.
#[derive(Debug)]
pub enum SessionEvent {
    Command(Command),
    Notification(Notification),
}

/// The playing state that Qobuz is told for a Sonos play state.
pub open spec fn sonos_playing_state(state: PlayState) -> PlayingState {
    match state {
        PlayState::Playing => PlayingState::Playing,
        PlayState::Paused => PlayingState::Paused,
        PlayState::Idle => PlayingState::Stopped,
        PlayState::Buffering => PlayingState::Stopped,
    }
}

/// Maps a Sonos play state to the playing state that Qobuz is told.
pub fn map_sonos_state(state: PlayState) -> (r: PlayingState)
    ensures
        r == sonos_playing_state(state),
{
    match state {
        PlayState::Playing => PlayingState::Playing,
        PlayState::Paused => PlayingState::Paused,
        PlayState::Idle | PlayState::Buffering => PlayingState::Stopped,
    }
}

/// The milliseconds that a Sonos position or duration stands for.
pub open spec fn millis(value: Option<i32>) -> u32 {
    match value {
        Some(v) => wrap_u32(v as int),
        None => 0,
    }
}

/// Reads a Sonos position as milliseconds, zero where there is none.
pub fn position_ms(value: Option<i32>) -> (r: u32)
    ensures
        r == millis(value),
{
    match value {
        Some(v) => bits_u32(v),
        None => 0,
    }
}

/// Every playing state is read back from its number.
pub proof fn playing_state_code_reads_back(state: PlayingState)
    ensures
        PlayingState::of_code(state.code()) == Some(state),
{
}

/// A report tells the state, the buffering, the position with a stamp, the
/// duration and the queue items that it is made of, and no queue version.
pub proof fn report_tells_what_it_is_made_of(
    state: PlayingState,
    buffer: BufferState,
    position_ms: u32,
    duration: Option<u32>,
    item: Option<i32>,
    next: Option<i32>,
)
    ensures
        ({
            let r = report(state, buffer, position_ms, duration, item, next);
            &&& r.playing_state == Some(
                match state {
                    PlayingState::Unknown => 0i32,
                    PlayingState::Stopped => 1i32,
                    PlayingState::Playing => 2i32,
                    PlayingState::Paused => 3i32,
                },
            )
            &&& r.buffer_state == Some(
                match buffer {
                    BufferState::Buffering => 1i32,
                    BufferState::Ready => 2i32,
                },
            )
            &&& r.position_ms == Some(position_ms)
            &&& r.stamped
            &&& r.duration == duration
            &&& r.queue_version is None
            &&& r.current_queue_item_id == item
            &&& r.next_queue_item_id == next
        }),
{
}

/// The report at a given position is the report of its milliseconds, and holds
/// that very position.
pub proof fn stamped_report_holds_its_position(
    state: PlayingState,
    buffer: BufferState,
    position: Position,
    duration: Option<u32>,
    item: Option<i32>,
    next: Option<i32>,
)
    ensures
        ({
            let r = renderer_state(state, buffer, position, duration, item, next);
            &&& r.current_position == Some(position)
            &&& position.value matches Some(ms) ==> position.timestamp is Some ==> r@ == report(
                state,
                buffer,
                ms,
                duration,
                item,
                next,
            )
        }),
{
}

/// What is seen of a sent report is what it holds: all of it but the time of the
/// stamp.
pub proof fn reports_are_seen_as_they_are(r: QueueRendererState, a: ActivationState)
    ensures
        r@.playing_state == r.playing_state,
        r@.buffer_state == r.buffer_state,
        r.current_position matches Some(p) ==> r@.position_ms == p.value && (r@.stamped
            <==> p.timestamp is Some),
        r.current_position is None ==> r@.position_ms is None && !r@.stamped,
        r@.duration == r.duration,
        r@.queue_version == r.queue_version,
        r@.current_queue_item_id == r.current_queue_item_id,
        r@.next_queue_item_id == r.next_queue_item_id,
        a@.muted == a.muted,
        a@.volume == a.volume,
        a@.max_quality == a.max_quality,
        a@.playback == a.playback@,
{
}

/// A command names the playing state of its number, where it has one of the four
/// numbers, and so does the broadcast of a renderer.
pub proof fn states_are_named_by_their_numbers(cmd: SetState, update: RendererStateUpdated)
    ensures
        cmd.wanted() == (match cmd.playing_state {
            Some(0i32) => Some(PlayingState::Unknown),
            Some(1i32) => Some(PlayingState::Stopped),
            Some(2i32) => Some(PlayingState::Playing),
            Some(3i32) => Some(PlayingState::Paused),
            _ => None,
        }),
        update.state is None ==> update.playing() is None && update.position_value() is None,
        update.state matches Some(state) ==> {
            &&& update.playing() == (match state.playing_state {
                Some(0i32) => Some(PlayingState::Unknown),
                Some(1i32) => Some(PlayingState::Stopped),
                Some(2i32) => Some(PlayingState::Playing),
                Some(3i32) => Some(PlayingState::Paused),
                _ => None,
            })
            &&& state.current_position matches Some(p) ==> update.position_value() == p.value
            &&& state.current_position is None ==> update.position_value() is None
        },
{
}

/// A player that plays or is paused is told so, any other is told as stopped.
pub proof fn player_is_told_as_it_is(state: PlayState)
    ensures
        sonos_playing_state(state) == PlayingState::Playing <==> state == PlayState::Playing,
        sonos_playing_state(state) == PlayingState::Paused <==> state == PlayState::Paused,
        sonos_playing_state(state) == PlayingState::Stopped <==> state == PlayState::Idle || state
            == PlayState::Buffering,
{
}

/// A position that is no negative number is told as it is, a missing one as zero.
pub proof fn positions_are_told_as_they_are(value: i32)
    ensures
        millis(None) == 0,
        value >= 0 ==> millis(Some(value)) == value,
        value < 0 ==> millis(Some(value)) == value + 0x1_0000_0000,
{
}

} // verus!
