//! What a bridge wants done: effects to carry out and questions to ask.

use crate::connect::{
    ActivationState, ActivationView, PlayingState, QueueRendererState, ReportView, SetState,
};
use crate::model::{opt_view, seq_view};
use crate::qobuz_api::QobuzClient;
use crate::sonos::{
    CreateSessionRequest, CreateSessionView, LoadCloudQueueRequest, LoadCloudQueueView,
    PlaybackStatus, Track, TrackView,
};
use vstd::prelude::*;

verus! {

/// Something to carry out whose outcome does not matter.
#[derive(Debug)]
pub enum Effect {
    /// Answer a playback command.
    RespondState(QueueRendererState),
    /// Answer an activation.
    RespondActive(ActivationState),
    /// Answer a volume command.
    RespondVolume(Option<u32>),
    /// Answer a heartbeat.
    RespondHeartbeat(Option<QueueRendererState>),
    /// Tell the player to play.
    Play,
    /// Tell the player to pause.
    Pause,
    /// Tell the player to stop.
    Stop,
    /// Tell the player to skip to the next track.
    SkipNext,
    /// Tell the player to skip to the previous track.
    SkipPrev,
    /// Tell the player to seek to a position in milliseconds.
    Seek(u32),
    /// Tell the player its volume.
    SetVolume(u8),
    /// Report playback to the session.
    ReportState(QueueRendererState),
    /// Report the volume to the session.
    ReportVolume(u32),
    /// Report to the session whether the player is muted.
    ReportMuted(bool),
}

pub enum EffectView {
    RespondState(ReportView),
    RespondActive(ActivationView),
    RespondVolume(Option<u32>),
    RespondHeartbeat(Option<ReportView>),
    Play,
    Pause,
    Stop,
    SkipNext,
    SkipPrev,
    Seek(u32),
    SetVolume(u8),
    ReportState(ReportView),
    ReportVolume(u32),
    ReportMuted(bool),
}

impl View for Effect {
    type V = EffectView;

    open spec fn view(&self) -> EffectView {
        match self {
            Effect::RespondState(s) => EffectView::RespondState(s@),
            Effect::RespondActive(a) => EffectView::RespondActive(a@),
            Effect::RespondVolume(v) => EffectView::RespondVolume(*v),
            Effect::RespondHeartbeat(s) => EffectView::RespondHeartbeat(opt_view(*s)),
            Effect::Play => EffectView::Play,
            Effect::Pause => EffectView::Pause,
            Effect::Stop => EffectView::Stop,
            Effect::SkipNext => EffectView::SkipNext,
            Effect::SkipPrev => EffectView::SkipPrev,
            Effect::Seek(ms) => EffectView::Seek(*ms),
            Effect::SetVolume(v) => EffectView::SetVolume(*v),
            Effect::ReportState(s) => EffectView::ReportState(s@),
            Effect::ReportVolume(v) => EffectView::ReportVolume(*v),
            Effect::ReportMuted(m) => EffectView::ReportMuted(*m),
        }
    }
}

/// Where a cloud queue is to be loaded.
#[derive(Debug, Clone, Copy, PartialEq, Eq, Structural)]
pub struct LoadPlan {
    pub queue_item_id: u64,
    pub track_id: u64,
    pub position_ms: u32,
    pub service_account_number: u32,
}

/// What a playback status is wanted for.
#[derive(Debug, Clone, Copy, PartialEq, Eq, Structural)]
pub enum AfterStatus {
    /// For the position in the answer to a playback command that names none;
    /// with the queue item that was current before the command.
    SetState { cmd: SetState, previous_item: Option<i32> },
    /// For the playback in the answer to an activation.
    Activation { volume: u32, muted: bool },
    /// For the answer to a heartbeat.
    Heartbeat,
    /// For the fresh position after a playback event.
    PlaybackChanged(PlaybackStatus),
    /// For the report of a track change.
    TrackChanged,
}

/// What track metadata is wanted for.
#[derive(Debug, Clone, Copy, PartialEq, Eq, Structural)]
pub enum AfterTracks {
    /// To show the track that the cloud queue is loaded at.
    Load(LoadPlan),
    /// To know the duration of the track that a loaded queue starts with.
    Target(LoadPlan),
}

impl AfterTracks {
    /// The track that metadata is wanted of.
    pub open spec fn track(self) -> u64 {
        match self {
            AfterTracks::Load(plan) => plan.track_id,
            AfterTracks::Target(plan) => plan.track_id,
        }
    }

    /// The track that metadata is wanted of.
    pub fn track_id(&self) -> (r: u64)
        ensures
            r == self.track(),
    {
        match self {
            AfterTracks::Load(plan) => plan.track_id,
            AfterTracks::Target(plan) => plan.track_id,
        }
    }
}

/// What the outcome of loading a cloud queue decides.
#[derive(Debug, Clone, Copy, PartialEq, Eq, Structural)]
pub enum AfterLoad {
    /// The session was new: whether it becomes the bridge's session.
    FirstLoad,
    /// The session was in use: whether the player is now taken to play.
    Reload,
}

/// An activation that waits for the metadata of the current track.
#[derive(Debug, Clone, Copy, PartialEq, Eq, Structural)]
pub struct Activation {
    pub volume: u32,
    pub muted: bool,
    pub state: PlayingState,
    pub position_ms: u32,
}

/// A question whose answer the bridge needs to go on.
#[allow(inconsistent_fields)]
#[derive(Debug)]
pub enum Ask {
    /// What is the playback status of the group?
    PlaybackStatus(AfterStatus),
    /// What is the volume of the group?
    Volume,
    /// What is the group playing?
    Metadata(Activation),
    /// What is the metadata of a track?
    Tracks { client: QobuzClient, after: AfterTracks },
    /// Under which ID can a playback session be opened on the group?
    CreateSession {
        request: CreateSessionRequest,
        plan: LoadPlan,
        track_metadata: Option<Track>,
    },
    /// Can a cloud queue be loaded into a playback session?
    LoadCloudQueue { session_id: String, request: LoadCloudQueueRequest, after: AfterLoad },
    /// Who is the user of an API client?
    User { client: QobuzClient },
    /// Which Sonos account belongs to a user of a music service?
    Account {
        client: QobuzClient,
        public_id: String,
        service_id: String,
        service_name: String,
    },
    /// Have the effects been carried out?
    Performed { state: PlayingState, position_ms: Option<u32> },
}

#[allow(inconsistent_fields)]
pub enum AskView {
    PlaybackStatus(AfterStatus),
    Volume,
    Metadata(Activation),
    Tracks { client: Map<Seq<char>, Seq<char>>, after: AfterTracks },
    CreateSession { request: CreateSessionView, plan: LoadPlan, track_metadata: Option<TrackView> },
    LoadCloudQueue { session_id: Seq<char>, request: LoadCloudQueueView, after: AfterLoad },
    User { client: Map<Seq<char>, Seq<char>> },
    Account {
        client: Map<Seq<char>, Seq<char>>,
        public_id: Seq<char>,
        service_id: Seq<char>,
        service_name: Seq<char>,
    },
    Performed { state: PlayingState, position_ms: Option<u32> },
}

impl View for Ask {
    type V = AskView;

    open spec fn view(&self) -> AskView {
        match self {
            Ask::PlaybackStatus(after) => AskView::PlaybackStatus(*after),
            Ask::Volume => AskView::Volume,
            Ask::Metadata(activation) => AskView::Metadata(*activation),
            Ask::Tracks { client, after } => AskView::Tracks { client: client@, after: *after },
            Ask::CreateSession { request, plan, track_metadata } => AskView::CreateSession {
                request: request@,
                plan: *plan,
                track_metadata: opt_view(*track_metadata),
            },
            Ask::LoadCloudQueue { session_id, request, after } => AskView::LoadCloudQueue {
                session_id: session_id@,
                request: request@,
                after: *after,
            },
            Ask::User { client } => AskView::User { client: client@ },
            Ask::Account { client, public_id, service_id, service_name } => AskView::Account {
                client: client@,
                public_id: public_id@,
                service_id: service_id@,
                service_name: service_name@,
            },
            Ask::Performed { state, position_ms } => AskView::Performed {
                state: *state,
                position_ms: *position_ms,
            },
        }
    }
}

/// What to do next: carry out the effects in order, then ask the question.
#[derive(Debug)]
pub struct Step {
    pub effects: Vec<Effect>,
    pub ask: Option<Ask>,
}

pub struct StepView {
    pub effects: Seq<EffectView>,
    pub ask: Option<AskView>,
}

impl StepView {
    /// Nothing to do.
    pub open spec fn idle() -> StepView {
        StepView { effects: Seq::empty(), ask: None }
    }

    /// Nothing to do but to ask.
    pub open spec fn asking(ask: AskView) -> StepView {
        StepView { effects: Seq::empty(), ask: Some(ask) }
    }
}

impl View for Step {
    type V = StepView;

    open spec fn view(&self) -> StepView {
        StepView { effects: seq_view(self.effects@), ask: opt_view(self.ask) }
    }
}

impl Step {
    /// Nothing to do.
    pub fn idle() -> (r: Step)
        ensures
            r@ == StepView::idle(),
    {
        let effects: Vec<Effect> = Vec::new();
        proof {
            assert(seq_view(effects@) =~= Seq::<EffectView>::empty());
        }
        Step { effects, ask: None }
    }

    /// Nothing to do but to ask.
    pub fn asking(ask: Ask) -> (r: Step)
        ensures
            r@ == StepView::asking(ask@),
    {
        let effects: Vec<Effect> = Vec::new();
        proof {
            assert(seq_view(effects@) =~= Seq::<EffectView>::empty());
        }
        Step { effects, ask: Some(ask) }
    }

    /// One effect to carry out.
    pub fn one(effect: Effect) -> (r: Step)
        ensures
            r@ == (StepView { effects: seq![effect@], ask: None }),
    {
        let mut r = Step::idle();
        r.add(effect);
        proof {
            assert(r@.effects =~= seq![effect@]);
        }
        r
    }

    /// Puts one more effect behind the others.
    pub fn add(&mut self, effect: Effect)
        ensures
            final(self)@ == (StepView {
                effects: old(self)@.effects.push(effect@),
                ask: old(self)@.ask,
            }),
    {
        let ghost before = self.effects@;
        let ghost added = effect@;
        self.effects.push(effect);
        proof {
            assert(seq_view(self.effects@) =~= seq_view(before).push(added));
        }
    }
}

} // verus!
