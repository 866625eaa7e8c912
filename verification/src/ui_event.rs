//! What the interface asks for. An event names what to change by position
//! and carries the new value; it never refers to a live object, so it can
//! be applied later against whatever the project has become.

use crate::play_state::PlayState;
use vstd::prelude::*;

verus! {

/// How far the loading of a sample has come. `InProgress` counts in
/// thousandths.
#[derive(Debug)]
pub enum Progress {
    InProgress(u32),
    Finished,
    Cancelled,
    Error(String),
}

/// A loading state as a value.
pub enum ProgressView {
    InProgress(u32),
    Finished,
    Cancelled,
    Error(Seq<char>),
}

impl View for Progress {
    type V = ProgressView;

    open spec fn view(&self) -> ProgressView {
        match self {
            Progress::InProgress(done) => ProgressView::InProgress(*done),
            Progress::Finished => ProgressView::Finished,
            Progress::Cancelled => ProgressView::Cancelled,
            Progress::Error(message) => ProgressView::Error(message@),
        }
    }
}

/// A change to the audio devices: it concerns the audio settings, not the
/// project.
#[derive(Clone, Copy, PartialEq, Eq, Structural, Debug)]
pub enum DeviceRequest {
    OutputDevice(usize),
    OutputDeviceSampleRate(u32),
    OutputDeviceChannels(u32),
    InputDevice(usize),
}

/// One intent of the interface.
#[derive(Debug)]
#[allow(inconsistent_fields)]
pub enum UiEvent {
    ProjectName(String),
    ProjectTempo(u32),
    ProjectTimeSignatureNumerator(usize),
    ProjectTimeSignatureDenominator(usize),
    ProjectPlayState(PlayState),
    ProjectSongPosition(u64),
    AddChannel,
    RemoveChannel { channel_index: usize },
    ChannelVolume { channel_index: usize, volume: u32 },
    ChannelPanning { channel_index: usize, panning: i32 },
    ChannelName { channel_index: usize, name: String },
    ChannelMuted { channel_index: usize, muted: bool },
    ChannelSelect { channel_index: Option<usize> },
    ChannelEffectAdd { channel_index: usize, vst_path: String },
    AddSample { path: String },
    LoadSampleProgress { sample_index: usize, progress: Progress },
    RemoveSample { sample_index: usize },
    SampleChannel { sample_index: usize, channel_index: usize },
    PlayPauseSample { sample_index: usize, play_state: PlayState },
    OutputDevice(usize),
    OutputDeviceSampleRate(u32),
    OutputDeviceChannels(u32),
    InputDevice(usize),
}

/// An intent as a value.
#[allow(inconsistent_fields)]
pub enum UiEventView {
    ProjectName(Seq<char>),
    ProjectTempo(u32),
    ProjectTimeSignatureNumerator(usize),
    ProjectTimeSignatureDenominator(usize),
    ProjectPlayState(PlayState),
    ProjectSongPosition(u64),
    AddChannel,
    RemoveChannel { channel_index: usize },
    ChannelVolume { channel_index: usize, volume: u32 },
    ChannelPanning { channel_index: usize, panning: i32 },
    ChannelName { channel_index: usize, name: Seq<char> },
    ChannelMuted { channel_index: usize, muted: bool },
    ChannelSelect { channel_index: Option<usize> },
    ChannelEffectAdd { channel_index: usize, vst_path: Seq<char> },
    AddSample { path: Seq<char> },
    LoadSampleProgress { sample_index: usize, progress: ProgressView },
    RemoveSample { sample_index: usize },
    SampleChannel { sample_index: usize, channel_index: usize },
    PlayPauseSample { sample_index: usize, play_state: PlayState },
    OutputDevice(usize),
    OutputDeviceSampleRate(u32),
    OutputDeviceChannels(u32),
    InputDevice(usize),
}

impl View for UiEvent {
    type V = UiEventView;

    open spec fn view(&self) -> UiEventView {
        match self {
            UiEvent::ProjectName(name) => UiEventView::ProjectName(name@),
            UiEvent::ProjectTempo(tempo) => UiEventView::ProjectTempo(*tempo),
            UiEvent::ProjectTimeSignatureNumerator(n) => UiEventView::ProjectTimeSignatureNumerator(
                *n,
            ),
            UiEvent::ProjectTimeSignatureDenominator(d) =>
                UiEventView::ProjectTimeSignatureDenominator(*d),
            UiEvent::ProjectPlayState(play_state) => UiEventView::ProjectPlayState(*play_state),
            UiEvent::ProjectSongPosition(position) => UiEventView::ProjectSongPosition(*position),
            UiEvent::AddChannel => UiEventView::AddChannel,
            UiEvent::RemoveChannel { channel_index } => UiEventView::RemoveChannel {
                channel_index: *channel_index,
            },
            UiEvent::ChannelVolume { channel_index, volume } => UiEventView::ChannelVolume {
                channel_index: *channel_index,
                volume: *volume,
            },
            UiEvent::ChannelPanning { channel_index, panning } => UiEventView::ChannelPanning {
                channel_index: *channel_index,
                panning: *panning,
            },
            UiEvent::ChannelName { channel_index, name } => UiEventView::ChannelName {
                channel_index: *channel_index,
                name: name@,
            },
            UiEvent::ChannelMuted { channel_index, muted } => UiEventView::ChannelMuted {
                channel_index: *channel_index,
                muted: *muted,
            },
            UiEvent::ChannelSelect { channel_index } => UiEventView::ChannelSelect {
                channel_index: *channel_index,
            },
            UiEvent::ChannelEffectAdd { channel_index, vst_path } => UiEventView::ChannelEffectAdd {
                channel_index: *channel_index,
                vst_path: vst_path@,
            },
            UiEvent::AddSample { path } => UiEventView::AddSample { path: path@ },
            UiEvent::LoadSampleProgress { sample_index, progress } =>
                UiEventView::LoadSampleProgress { sample_index: *sample_index, progress: progress@ },
            UiEvent::RemoveSample { sample_index } => UiEventView::RemoveSample {
                sample_index: *sample_index,
            },
            UiEvent::SampleChannel { sample_index, channel_index } => UiEventView::SampleChannel {
                sample_index: *sample_index,
                channel_index: *channel_index,
            },
            UiEvent::PlayPauseSample { sample_index, play_state } => UiEventView::PlayPauseSample {
                sample_index: *sample_index,
                play_state: *play_state,
            },
            UiEvent::OutputDevice(index) => UiEventView::OutputDevice(*index),
            UiEvent::OutputDeviceSampleRate(rate) => UiEventView::OutputDeviceSampleRate(*rate),
            UiEvent::OutputDeviceChannels(channels) => UiEventView::OutputDeviceChannels(*channels),
            UiEvent::InputDevice(index) => UiEventView::InputDevice(*index),
        }
    }
}

/// The values of a queue of events.
pub open spec fn event_views(events: Seq<UiEvent>) -> Seq<UiEventView> {
    Seq::new(events.len(), |i: int| events[i]@)
}

} // verus!
