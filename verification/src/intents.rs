//! From what the widgets show after a frame to the events to queue.
//!
//! A widget edits a copy of a value. After the frame the copy is compared
//! with the project, and every difference becomes one event that names
//! its target by position.

use crate::channel::{Channel, ChannelView};
use crate::play_state::PlayState;
use crate::project::{Project, ProjectView};
use crate::sampler::{AudioFile, AudioFileView};
use crate::ui_event::{event_views, UiEvent, UiEventView};
use vstd::prelude::*;

verus! {

/// What the strip of one channel shows after a frame.
#[derive(Debug)]
pub struct ChannelEdit {
    pub name: String,
    pub panning: i32,
    pub volume: u32,
    pub muted: bool,
    /// The channel was picked.
    pub selected: bool,
    /// The pan knob was double-clicked: back to the centre.
    pub pan_reset: bool,
    /// Removal was asked for.
    pub remove: bool,
}

/// A strip after a frame, as a value.
pub struct ChannelEditView {
    pub name: Seq<char>,
    pub panning: i32,
    pub volume: u32,
    pub muted: bool,
    pub selected: bool,
    pub pan_reset: bool,
    pub remove: bool,
}

impl View for ChannelEdit {
    type V = ChannelEditView;

    open spec fn view(&self) -> ChannelEditView {
        ChannelEditView {
            name: self.name@,
            panning: self.panning,
            volume: self.volume,
            muted: self.muted,
            selected: self.selected,
            pan_reset: self.pan_reset,
            remove: self.remove,
        }
    }
}

/// `event` alone where `wanted`, nothing otherwise.
pub open spec fn when(wanted: bool, event: UiEventView) -> Seq<UiEventView> {
    if wanted {
        seq![event]
    } else {
        Seq::empty()
    }
}

/// The events of one channel strip, in the order in which they are
/// queued: the pan reset, the removal (never of the master channel at
/// position 0), then one event for each setting that differs from the
/// channel, name, pan, volume and mute, and last the selection.
pub open spec fn channel_events(index: usize, channel: ChannelView, edit: ChannelEditView) -> Seq<
    UiEventView,
> {
    when(edit.pan_reset, UiEventView::ChannelPanning { channel_index: index, panning: 0 }) + when(
        edit.remove && index > 0,
        UiEventView::RemoveChannel { channel_index: index },
    ) + when(
        edit.name != channel.name,
        UiEventView::ChannelName { channel_index: index, name: edit.name },
    ) + when(
        edit.panning != channel.panning,
        UiEventView::ChannelPanning { channel_index: index, panning: edit.panning },
    ) + when(
        edit.volume != channel.volume,
        UiEventView::ChannelVolume { channel_index: index, volume: edit.volume },
    ) + when(
        edit.muted != channel.muted,
        UiEventView::ChannelMuted { channel_index: index, muted: edit.muted },
    ) + when(edit.selected, UiEventView::ChannelSelect { channel_index: Some(index) })
}

/// The events of the project toolbar: one for each of tempo, numerator
/// and denominator that differs from the project, in that order.
pub open spec fn toolbar_events(
    project: ProjectView,
    tempo: u32,
    numerator: usize,
    denominator: usize,
) -> Seq<UiEventView> {
    when(tempo != project.tempo, UiEventView::ProjectTempo(tempo)) + when(
        numerator != project.time_signature_numerator,
        UiEventView::ProjectTimeSignatureNumerator(numerator),
    ) + when(
        denominator != project.time_signature_denominator,
        UiEventView::ProjectTimeSignatureDenominator(denominator),
    )
}

/// The transport state of a file after its play button was pressed at
/// `now`: a playing file stops, any other starts playing from `now`.
pub open spec fn play_toggled(play_state: PlayState, now: u64) -> PlayState {
    if play_state is Playing {
        PlayState::Stopped
    } else {
        PlayState::Playing { start_time: now }
    }
}

/// The channel that a file is routed to when `wanted` is asked for in a
/// mixer of `channel_count` channels: `wanted`, held to the last channel.
pub open spec fn routed_channel(wanted: usize, channel_count: usize) -> usize {
    if channel_count == 0 {
        0
    } else if wanted >= channel_count {
        (channel_count - 1) as usize
    } else {
        wanted
    }
}

/// The events of one row of the sampler, in the order in which they are
/// queued: the removal, the routing where it differs from the file's, and
/// the transport state where the play button was pressed.
pub open spec fn sample_events(
    index: usize,
    file: AudioFileView,
    wanted_channel: usize,
    channel_count: usize,
    play_clicked: bool,
    remove_clicked: bool,
    now: u64,
) -> Seq<UiEventView> {
    let channel = routed_channel(wanted_channel, channel_count);
    let play_state = if play_clicked {
        play_toggled(file.play_state, now)
    } else {
        file.play_state
    };
    when(remove_clicked, UiEventView::RemoveSample { sample_index: index }) + when(
        channel != file.channel,
        UiEventView::SampleChannel { sample_index: index, channel_index: channel },
    ) + when(
        play_state != file.play_state,
        UiEventView::PlayPauseSample { sample_index: index, play_state },
    )
}

/// The events of the audio tab of the settings: the sample rate where it
/// differs from the current one, then the output device where it differs
/// from the active one, then the input device where it differs from the
/// active one.
pub open spec fn audio_tab_events(
    active_output_index: usize,
    output_sample_rate: u32,
    active_input_index: usize,
    chosen_output: usize,
    chosen_rate: u32,
    chosen_input: usize,
) -> Seq<UiEventView> {
    when(chosen_rate != output_sample_rate, UiEventView::OutputDeviceSampleRate(chosen_rate))
        + when(chosen_output != active_output_index, UiEventView::OutputDevice(chosen_output))
        + when(chosen_input != active_input_index, UiEventView::InputDevice(chosen_input))
}

/// Appends `event` to `events`.
fn queue(events: &mut Vec<UiEvent>, event: UiEvent)
    ensures
        event_views(final(events)@) == event_views(old(events)@) + seq![event@],
{
    events.push(event);
    assert(event_views(events@) =~= event_views(old(events)@) + seq![event@]);
}

/// Turns what the strip of the channel at `index` shows after a frame
/// into events.
pub fn channel_strip_intents(channel: &Channel, index: usize, edit: ChannelEdit) -> (events: Vec<
    UiEvent,
>)
    ensures
        event_views(events@) == channel_events(index, channel@, edit@),
{
    let ghost shown = edit@;
    let mut events: Vec<UiEvent> = Vec::new();
    assert(event_views(events@) =~= Seq::empty());
    if edit.pan_reset {
        queue(&mut events, UiEvent::ChannelPanning { channel_index: index, panning: 0 });
    }
    if edit.remove && index > 0 {
        queue(&mut events, UiEvent::RemoveChannel { channel_index: index });
    }
    if !(edit.name == channel.name) {
        queue(&mut events, UiEvent::ChannelName { channel_index: index, name: edit.name });
    }
    if edit.panning != channel.panning {
        queue(&mut events, UiEvent::ChannelPanning { channel_index: index, panning: edit.panning });
    }
    if edit.volume != channel.volume {
        queue(&mut events, UiEvent::ChannelVolume { channel_index: index, volume: edit.volume });
    }
    if edit.muted != channel.muted {
        queue(&mut events, UiEvent::ChannelMuted { channel_index: index, muted: edit.muted });
    }
    if edit.selected {
        queue(&mut events, UiEvent::ChannelSelect { channel_index: Some(index) });
    }
    assert(event_views(events@) =~= channel_events(index, channel@, shown));
    events
}

/// Turns what the project toolbar shows after a frame into events.
pub fn toolbar_intents(project: &Project, tempo: u32, numerator: usize, denominator: usize) -> (events:
    Vec<UiEvent>)
    ensures
        event_views(events@) == toolbar_events(project@, tempo, numerator, denominator),
{
    let mut events: Vec<UiEvent> = Vec::new();
    assert(event_views(events@) =~= Seq::empty());
    if tempo != project.tempo {
        queue(&mut events, UiEvent::ProjectTempo(tempo));
    }
    if numerator != project.time_signature_numerator {
        queue(&mut events, UiEvent::ProjectTimeSignatureNumerator(numerator));
    }
    if denominator != project.time_signature_denominator {
        queue(&mut events, UiEvent::ProjectTimeSignatureDenominator(denominator));
    }
    assert(event_views(events@) =~= toolbar_events(project@, tempo, numerator, denominator));
    events
}

/// Turns what the row of the file at `index` shows after a frame into
/// events. `wanted_channel` is the routing shown, `channel_count` the
/// number of mixer channels, `now` the time of the frame.
pub fn sample_row_intents(
    file: &AudioFile,
    index: usize,
    wanted_channel: usize,
    channel_count: usize,
    play_clicked: bool,
    remove_clicked: bool,
    now: u64,
) -> (events: Vec<UiEvent>)
    ensures
        event_views(events@) == sample_events(
            index,
            file@,
            wanted_channel,
            channel_count,
            play_clicked,
            remove_clicked,
            now,
        ),
{
    let channel = if channel_count == 0 {
        0
    } else if wanted_channel >= channel_count {
        channel_count - 1
    } else {
        wanted_channel
    };
    let play_state = if play_clicked {
        if file.play_state.is_playing() {
            PlayState::Stopped
        } else {
            PlayState::Playing { start_time: now }
        }
    } else {
        file.play_state
    };
    let mut events: Vec<UiEvent> = Vec::new();
    assert(event_views(events@) =~= Seq::empty());
    if remove_clicked {
        queue(&mut events, UiEvent::RemoveSample { sample_index: index });
    }
    if channel != file.channel {
        queue(&mut events, UiEvent::SampleChannel { sample_index: index, channel_index: channel });
    }
    if play_state != file.play_state {
        queue(&mut events, UiEvent::PlayPauseSample { sample_index: index, play_state });
    }
    assert(event_views(events@) =~= sample_events(
        index,
        file@,
        wanted_channel,
        channel_count,
        play_clicked,
        remove_clicked,
        now,
    ));
    events
}

/// Turns what the audio tab of the settings shows after a frame into
/// events.
pub fn audio_tab_intents(
    active_output_index: usize,
    output_sample_rate: u32,
    active_input_index: usize,
    chosen_output: usize,
    chosen_rate: u32,
    chosen_input: usize,
) -> (events: Vec<UiEvent>)
    ensures
        event_views(events@) == audio_tab_events(
            active_output_index,
            output_sample_rate,
            active_input_index,
            chosen_output,
            chosen_rate,
            chosen_input,
        ),
{
    let mut events: Vec<UiEvent> = Vec::new();
    assert(event_views(events@) =~= Seq::empty());
    if chosen_rate != output_sample_rate {
        queue(&mut events, UiEvent::OutputDeviceSampleRate(chosen_rate));
    }
    if chosen_output != active_output_index {
        queue(&mut events, UiEvent::OutputDevice(chosen_output));
    }
    if chosen_input != active_input_index {
        queue(&mut events, UiEvent::InputDevice(chosen_input));
    }
    assert(event_views(events@) =~= audio_tab_events(
        active_output_index,
        output_sample_rate,
        active_input_index,
        chosen_output,
        chosen_rate,
        chosen_input,
    ));
    events
}

} // verus!
