//! Applying queued interface events to the project.
//!
//! Events are applied one by one, in the order in which they were queued,
//! each against the project as the events before it left it. An event that
//! names a channel or a sample that is not there is skipped and reported;
//! it changes nothing.

use crate::channel::ChannelView;
use crate::mixer::MixerView;
use crate::project::{Project, ProjectView};
use crate::sampler::{AudioFileView, SamplerView};
use crate::ui_event::{event_views, DeviceRequest, UiEvent, UiEventView};
use std::collections::VecDeque;
use vstd::prelude::*;

verus! {

/// What became of one event.
#[derive(Clone, Copy, PartialEq, Eq, Structural, Debug)]
pub enum EventOutcome {
    /// The project was changed as asked.
    Applied,
    /// The event named a channel or a sample that does not exist; it was
    /// skipped.
    StaleIndexReference,
    /// The event asks for something the project does not do yet; it was
    /// skipped.
    Unimplemented,
    /// The event concerns the audio devices; it is handed on unchanged.
    Device(DeviceRequest),
}

/// Where an index that pointed at channel `index` points once channel
/// `removed` is gone: at the same channel, or at channel 0 when its own
/// channel was the one removed.
pub open spec fn route_after_removal(index: usize, removed: usize) -> usize {
    if index == removed {
        0
    } else if index > removed {
        (index - 1) as usize
    } else {
        index
    }
}

/// The selection once channel `removed` is gone: it follows its channel,
/// and is dropped when its own channel was the one removed.
pub open spec fn selection_after_removal(selected: Option<usize>, removed: usize) -> Option<
    usize,
> {
    match selected {
        Some(index) => if index == removed {
            None
        } else if index > removed {
            Some((index - 1) as usize)
        } else {
            Some(index)
        },
        None => None,
    }
}

/// The files with their routing brought up to date after channel
/// `removed` is gone.
pub open spec fn files_after_removal(files: Seq<AudioFileView>, removed: usize) -> Seq<
    AudioFileView,
> {
    Seq::new(
        files.len(),
        |i: int| AudioFileView { channel: route_after_removal(files[i].channel, removed), ..files[i] },
    )
}

/// Whether the event names only channels and samples that exist.
pub open spec fn addresses_existing(project: ProjectView, event: UiEventView) -> bool {
    let channels = project.mixer.channels.len();
    let files = project.sampler.files.len();
    match event {
        UiEventView::RemoveChannel { channel_index } => channel_index < channels,
        UiEventView::ChannelVolume { channel_index, .. } => channel_index < channels,
        UiEventView::ChannelPanning { channel_index, .. } => channel_index < channels,
        UiEventView::ChannelName { channel_index, .. } => channel_index < channels,
        UiEventView::ChannelMuted { channel_index, .. } => channel_index < channels,
        UiEventView::ChannelSelect { channel_index: Some(index) } => index < channels,
        UiEventView::RemoveSample { sample_index } => sample_index < files,
        UiEventView::SampleChannel { sample_index, channel_index } => sample_index < files
            && channel_index < channels,
        UiEventView::PlayPauseSample { sample_index, .. } => sample_index < files,
        _ => true,
    }
}

/// The device request that an event carries, if it is one.
pub open spec fn device_request(event: UiEventView) -> Option<DeviceRequest> {
    match event {
        UiEventView::OutputDevice(index) => Some(DeviceRequest::OutputDevice(index)),
        UiEventView::OutputDeviceSampleRate(rate) => Some(
            DeviceRequest::OutputDeviceSampleRate(rate),
        ),
        UiEventView::OutputDeviceChannels(channels) => Some(
            DeviceRequest::OutputDeviceChannels(channels),
        ),
        UiEventView::InputDevice(index) => Some(DeviceRequest::InputDevice(index)),
        _ => None,
    }
}

/// Whether the project does nothing yet for this kind of event.
pub open spec fn unimplemented_event(event: UiEventView) -> bool {
    event is ProjectSongPosition || event is ChannelEffectAdd || event is AddSample
        || event is LoadSampleProgress
}

/// What becomes of `event` when it is applied to `project`.
pub open spec fn outcome_of(project: ProjectView, event: UiEventView) -> EventOutcome {
    if device_request(event) is Some {
        EventOutcome::Device(device_request(event)->Some_0)
    } else if unimplemented_event(event) {
        EventOutcome::Unimplemented
    } else if addresses_existing(project, event) {
        EventOutcome::Applied
    } else {
        EventOutcome::StaleIndexReference
    }
}

/// The channels with channel `index` replaced.
pub open spec fn with_channel(project: ProjectView, index: int, channel: ChannelView) -> ProjectView {
    ProjectView {
        mixer: MixerView { channels: project.mixer.channels.update(index, channel), ..project.mixer },
        ..project
    }
}

/// The files with file `index` replaced.
pub open spec fn with_file(project: ProjectView, index: int, file: AudioFileView) -> ProjectView {
    ProjectView { sampler: SamplerView { files: project.sampler.files.update(index, file) }, ..project }
}

/// The project after `event`. Only an event whose outcome is `Applied`
/// changes anything.
pub open spec fn applied(project: ProjectView, event: UiEventView) -> ProjectView {
    if outcome_of(project, event) != EventOutcome::Applied {
        project
    } else {
        match event {
            UiEventView::ProjectName(name) => ProjectView { name, ..project },
            UiEventView::ProjectTempo(tempo) => ProjectView { tempo, ..project },
            UiEventView::ProjectTimeSignatureNumerator(numerator) => ProjectView {
                time_signature_numerator: numerator,
                ..project
            },
            UiEventView::ProjectTimeSignatureDenominator(denominator) => ProjectView {
                time_signature_denominator: denominator,
                ..project
            },
            UiEventView::ProjectPlayState(play_state) => ProjectView { play_state, ..project },
            UiEventView::AddChannel => ProjectView {
                mixer: project.mixer.with_new_channel(),
                ..project
            },
            UiEventView::RemoveChannel { channel_index } => ProjectView {
                mixer: MixerView {
                    channels: project.mixer.channels.remove(channel_index as int),
                    selected_channel: selection_after_removal(
                        project.mixer.selected_channel,
                        channel_index,
                    ),
                },
                sampler: SamplerView {
                    files: files_after_removal(project.sampler.files, channel_index),
                },
                ..project
            },
            UiEventView::ChannelVolume { channel_index, volume } => with_channel(
                project,
                channel_index as int,
                ChannelView { volume, ..project.mixer.channels[channel_index as int] },
            ),
            UiEventView::ChannelPanning { channel_index, panning } => with_channel(
                project,
                channel_index as int,
                ChannelView { panning, ..project.mixer.channels[channel_index as int] },
            ),
            UiEventView::ChannelName { channel_index, name } => with_channel(
                project,
                channel_index as int,
                ChannelView { name, ..project.mixer.channels[channel_index as int] },
            ),
            UiEventView::ChannelMuted { channel_index, muted } => with_channel(
                project,
                channel_index as int,
                ChannelView { muted, ..project.mixer.channels[channel_index as int] },
            ),
            UiEventView::ChannelSelect { channel_index } => ProjectView {
                mixer: MixerView { selected_channel: channel_index, ..project.mixer },
                ..project
            },
            UiEventView::RemoveSample { sample_index } => ProjectView {
                sampler: SamplerView { files: project.sampler.files.remove(sample_index as int) },
                ..project
            },
            UiEventView::SampleChannel { sample_index, channel_index } => with_file(
                project,
                sample_index as int,
                AudioFileView {
                    channel: channel_index,
                    ..project.sampler.files[sample_index as int]
                },
            ),
            UiEventView::PlayPauseSample { sample_index, play_state } => with_file(
                project,
                sample_index as int,
                AudioFileView { play_state, ..project.sampler.files[sample_index as int] },
            ),
            _ => project,
        }
    }
}

/// The project after all of `events`, first to last.
pub open spec fn applied_all(project: ProjectView, events: Seq<UiEventView>) -> ProjectView
    decreases events.len(),
{
    if events.len() == 0 {
        project
    } else {
        applied_all(applied(project, events[0]), events.skip(1))
    }
}

/// The outcome of each of `events`, applied first to last.
pub open spec fn outcomes_all(project: ProjectView, events: Seq<UiEventView>) -> Seq<EventOutcome>
    decreases events.len(),
{
    if events.len() == 0 {
        Seq::empty()
    } else {
        seq![outcome_of(project, events[0])] + outcomes_all(
            applied(project, events[0]),
            events.skip(1),
        )
    }
}

/// Whether the event sets one setting of the channel at `index`.
pub open spec fn edits_channel(event: UiEventView, index: usize) -> bool {
    match event {
        UiEventView::ChannelVolume { channel_index, .. } => channel_index == index,
        UiEventView::ChannelPanning { channel_index, .. } => channel_index == index,
        UiEventView::ChannelName { channel_index, .. } => channel_index == index,
        UiEventView::ChannelMuted { channel_index, .. } => channel_index == index,
        _ => false,
    }
}

/// An empty queue leaves the project as it is and reports nothing.
pub proof fn lemma_empty_queue_changes_nothing(project: ProjectView)
    ensures
        applied_all(project, Seq::empty()) == project,
        outcomes_all(project, Seq::empty()).len() == 0,
{
}

/// An event that is not applied, because it names what does not exist,
/// is not implemented or concerns the devices, leaves the whole project
/// as it is.
pub proof fn lemma_skipped_event_changes_nothing(project: ProjectView, event: UiEventView)
    requires
        outcome_of(project, event) != EventOutcome::Applied,
    ensures
        applied(project, event) == project,
{
}

/// An event that sets a channel's volume, pan, name or mute and names a
/// position at or beyond the end of the mixer is skipped as stale.
pub proof fn lemma_channel_edit_out_of_range_is_stale(
    project: ProjectView,
    event: UiEventView,
    index: usize,
)
    requires
        edits_channel(event, index),
        index >= project.mixer.channels.len(),
    ensures
        outcome_of(project, event) == EventOutcome::StaleIndexReference,
        applied(project, event) == project,
{
}

/// Once the last channel is removed, an event that sets a channel's
/// volume, pan, name or mute at the removed position is skipped as stale
/// and changes no channel.
pub proof fn lemma_edit_after_removal_of_last_is_stale(
    project: ProjectView,
    removed: usize,
    event: UiEventView,
)
    requires
        removed + 1 == project.mixer.channels.len(),
        edits_channel(event, removed),
    ensures
        ({
            let after = applied(project, (UiEventView::RemoveChannel { channel_index: removed }));
            &&& outcome_of(after, event) == EventOutcome::StaleIndexReference
            &&& applied(after, event) == after
        }),
{
}

/// An event that sets a channel's volume, pan, name or mute changes that
/// one channel: the mixer keeps its length, its selection and every other
/// channel, and everything outside the mixer stays as it is.
pub proof fn lemma_channel_edit_touches_one_channel(
    project: ProjectView,
    event: UiEventView,
    index: usize,
    other: int,
)
    requires
        edits_channel(event, index),
        0 <= other < project.mixer.channels.len(),
        other != index,
    ensures
        applied(project, event).mixer.channels.len() == project.mixer.channels.len(),
        applied(project, event).mixer.channels[other] == project.mixer.channels[other],
        applied(project, event).mixer.selected_channel == project.mixer.selected_channel,
        applied(project, event).sampler == project.sampler,
        applied(project, event).name == project.name,
        applied(project, event).tempo == project.tempo,
        applied(project, event).play_state == project.play_state,
{
}

/// Removing a channel keeps every other channel as it is, in order: those
/// before it stay in place, those after it move down by one.
pub proof fn lemma_removal_keeps_other_channels(
    project: ProjectView,
    removed: usize,
    other: usize,
)
    requires
        removed < project.mixer.channels.len(),
        other < project.mixer.channels.len(),
        other != removed,
    ensures
        ({
            let after = applied(project, (UiEventView::RemoveChannel { channel_index: removed }));
            &&& after.mixer.channels.len() + 1 == project.mixer.channels.len()
            &&& after.mixer.channels[route_after_removal(other, removed) as int]
                == project.mixer.channels[other as int]
        }),
{
}

/// Setting the volume of an existing channel and reading it back gives
/// exactly the value set: nothing clamps or rounds it.
pub proof fn lemma_volume_round_trip(project: ProjectView, index: usize, volume: u32)
    requires
        index < project.mixer.channels.len(),
    ensures
        applied(
            project,
            (UiEventView::ChannelVolume { channel_index: index, volume }),
        ).mixer.channels[index as int].volume == volume,
{
}

/// Setting the pan position of an existing channel and reading it back
/// gives exactly the value set; only the pan law clamps, where it turns
/// the position into gains.
pub proof fn lemma_panning_round_trip(project: ProjectView, index: usize, panning: i32)
    requires
        index < project.mixer.channels.len(),
    ensures
        applied(
            project,
            (UiEventView::ChannelPanning { channel_index: index, panning }),
        ).mixer.channels[index as int].panning == panning,
{
}

/// Applying one queue after another is applying the two as one queue.
pub proof fn lemma_applied_all_concat(
    project: ProjectView,
    first: Seq<UiEventView>,
    second: Seq<UiEventView>,
)
    ensures
        applied_all(project, first + second) == applied_all(applied_all(project, first), second),
        outcomes_all(project, first + second) == outcomes_all(project, first) + outcomes_all(
            applied_all(project, first),
            second,
        ),
    decreases first.len(),
{
    if first.len() == 0 {
        assert(first + second =~= second);
        assert(outcomes_all(project, first) + outcomes_all(project, second) =~= outcomes_all(
            project,
            second,
        ));
    } else {
        let next = applied(project, first[0]);
        assert((first + second).skip(1) =~= first.skip(1) + second);
        assert((first + second)[0] == first[0]);
        lemma_applied_all_concat(next, first.skip(1), second);
        assert(outcomes_all(project, first + second) =~= outcomes_all(project, first)
            + outcomes_all(applied_all(project, first), second));
    }
}

/// One outcome is reported for each event.
pub proof fn lemma_one_outcome_per_event(project: ProjectView, events: Seq<UiEventView>)
    ensures
        outcomes_all(project, events).len() == events.len(),
    decreases events.len(),
{
    if events.len() > 0 {
        lemma_one_outcome_per_event(applied(project, events[0]), events.skip(1));
    }
}

/// Brings the routing of every file up to date after channel `removed` is
/// gone.
fn reroute_files(project: &mut Project, removed: usize)
    ensures
        final(project)@ == (ProjectView {
            sampler: SamplerView { files: files_after_removal(old(project)@.sampler.files, removed) },
            ..old(project)@
        }),
{
    let mut i: usize = 0;
    while i < project.sampler.files.len()
        invariant
            i <= project.sampler.files.len(),
            project.sampler.files.len() == old(project).sampler.files.len(),
            project.name == old(project).name,
            project.tempo == old(project).tempo,
            project.time_signature_numerator == old(project).time_signature_numerator,
            project.time_signature_denominator == old(project).time_signature_denominator,
            project.play_state == old(project).play_state,
            project.mixer == old(project).mixer,
            forall|k: int|
                0 <= k < i ==> (#[trigger] project.sampler.files[k])@ == (AudioFileView {
                    channel: route_after_removal(old(project).sampler.files[k].channel, removed),
                    ..old(project).sampler.files[k]@
                }),
            forall|k: int|
                i <= k < project.sampler.files.len() ==> #[trigger] project.sampler.files[k] == old(
                    project,
                ).sampler.files[k],
        decreases project.sampler.files.len() - i,
    {
        let channel = project.sampler.files[i].channel;
        let routed = if channel == removed {
            0
        } else if channel > removed {
            channel - 1
        } else {
            channel
        };
        project.sampler.files[i].channel = routed;
        i = i + 1;
    }
    assert(project@.sampler.files =~= files_after_removal(old(project)@.sampler.files, removed));
}

/// Applies one event to the project and says what became of it. An event
/// that names a channel or a sample that does not exist changes nothing.
pub fn apply_event(state: &mut Project, event: UiEvent) -> (outcome: EventOutcome)
    ensures
        final(state)@ == applied(old(state)@, event@),
        outcome == outcome_of(old(state)@, event@),
        outcome != EventOutcome::Applied ==> *final(state) == *old(state),
{
    let channels = state.mixer.channels.len();
    let files = state.sampler.files.len();
    match event {
        UiEvent::ProjectName(name) => {
            state.name = name;
            EventOutcome::Applied
        },
        UiEvent::ProjectTempo(tempo) => {
            state.tempo = tempo;
            EventOutcome::Applied
        },
        UiEvent::ProjectTimeSignatureNumerator(numerator) => {
            state.time_signature_numerator = numerator;
            EventOutcome::Applied
        },
        UiEvent::ProjectTimeSignatureDenominator(denominator) => {
            state.time_signature_denominator = denominator;
            EventOutcome::Applied
        },
        UiEvent::ProjectPlayState(play_state) => {
            state.play_state = play_state;
            EventOutcome::Applied
        },
        UiEvent::AddChannel => {
            state.mixer.add_channel();
            EventOutcome::Applied
        },
        UiEvent::RemoveChannel { channel_index } => {
            if channel_index >= channels {
                return EventOutcome::StaleIndexReference;
            }
            state.mixer.channels.remove(channel_index);
            state.mixer.selected_channel = match state.mixer.selected_channel {
                Some(index) => if index == channel_index {
                    None
                } else if index > channel_index {
                    Some(index - 1)
                } else {
                    Some(index)
                },
                None => None,
            };
            assert(state@.mixer.channels =~= old(state)@.mixer.channels.remove(
                channel_index as int,
            ));
            reroute_files(state, channel_index);
            EventOutcome::Applied
        },
        UiEvent::ChannelVolume { channel_index, volume } => {
            if channel_index >= channels {
                return EventOutcome::StaleIndexReference;
            }
            state.mixer.channels[channel_index].volume = volume;
            assert(state@.mixer.channels =~= applied(old(state)@, event@).mixer.channels);
            EventOutcome::Applied
        },
        UiEvent::ChannelPanning { channel_index, panning } => {
            if channel_index >= channels {
                return EventOutcome::StaleIndexReference;
            }
            state.mixer.channels[channel_index].panning = panning;
            assert(state@.mixer.channels =~= applied(old(state)@, event@).mixer.channels);
            EventOutcome::Applied
        },
        UiEvent::ChannelName { channel_index, name } => {
            if channel_index >= channels {
                return EventOutcome::StaleIndexReference;
            }
            state.mixer.channels[channel_index].name = name;
            assert(state@.mixer.channels =~= applied(old(state)@, event@).mixer.channels);
            EventOutcome::Applied
        },
        UiEvent::ChannelMuted { channel_index, muted } => {
            if channel_index >= channels {
                return EventOutcome::StaleIndexReference;
            }
            state.mixer.channels[channel_index].muted = muted;
            assert(state@.mixer.channels =~= applied(old(state)@, event@).mixer.channels);
            EventOutcome::Applied
        },
        UiEvent::ChannelSelect { channel_index } => {
            match channel_index {
                Some(index) => {
                    if index >= channels {
                        return EventOutcome::StaleIndexReference;
                    }
                },
                None => {},
            }
            state.mixer.selected_channel = channel_index;
            EventOutcome::Applied
        },
        UiEvent::RemoveSample { sample_index } => {
            if sample_index >= files {
                return EventOutcome::StaleIndexReference;
            }
            state.sampler.files.remove(sample_index);
            assert(state@.sampler.files =~= old(state)@.sampler.files.remove(sample_index as int));
            EventOutcome::Applied
        },
        UiEvent::SampleChannel { sample_index, channel_index } => {
            if sample_index >= files || channel_index >= channels {
                return EventOutcome::StaleIndexReference;
            }
            state.sampler.files[sample_index].channel = channel_index;
            assert(state@.sampler.files =~= applied(old(state)@, event@).sampler.files);
            EventOutcome::Applied
        },
        UiEvent::PlayPauseSample { sample_index, play_state } => {
            if sample_index >= files {
                return EventOutcome::StaleIndexReference;
            }
            state.sampler.files[sample_index].play_state = play_state;
            assert(state@.sampler.files =~= applied(old(state)@, event@).sampler.files);
            EventOutcome::Applied
        },
        UiEvent::OutputDevice(index) => EventOutcome::Device(DeviceRequest::OutputDevice(index)),
        UiEvent::OutputDeviceSampleRate(rate) => EventOutcome::Device(
            DeviceRequest::OutputDeviceSampleRate(rate),
        ),
        UiEvent::OutputDeviceChannels(count) => EventOutcome::Device(
            DeviceRequest::OutputDeviceChannels(count),
        ),
        UiEvent::InputDevice(index) => EventOutcome::Device(DeviceRequest::InputDevice(index)),
        UiEvent::ProjectSongPosition(_) => EventOutcome::Unimplemented,
        UiEvent::ChannelEffectAdd { .. } => EventOutcome::Unimplemented,
        UiEvent::AddSample { .. } => EventOutcome::Unimplemented,
        UiEvent::LoadSampleProgress { .. } => EventOutcome::Unimplemented,
    }
}

/// Empties the queue into the project: every event is taken once, first
/// to last, and applied to the project as the events before it left it.
/// The report holds the outcome of each event, in the same order. With an
/// empty queue the project is left exactly as it was.
pub fn ui_event_handler(state: &mut Project, events: &mut VecDeque<UiEvent>) -> (report: Vec<
    EventOutcome,
>)
    ensures
        final(events)@.len() == 0,
        final(state)@ == applied_all(old(state)@, event_views(old(events)@)),
        report@ == outcomes_all(old(state)@, event_views(old(events)@)),
        old(events)@.len() == 0 ==> *final(state) == *old(state),
{
    let mut report: Vec<EventOutcome> = Vec::new();
    let ghost all = event_views(events@);
    loop
        invariant
            all == event_views(old(events)@),
            applied_all(state@, event_views(events@)) == applied_all(old(state)@, all),
            report@ + outcomes_all(state@, event_views(events@)) == outcomes_all(old(state)@, all),
            report@.len() == 0 ==> *state == *old(state) && events@ == old(events)@,
        ensures
            events@.len() == 0,
            state@ == applied_all(old(state)@, all),
            report@ == outcomes_all(old(state)@, all),
            old(events)@.len() == 0 ==> *state == *old(state),
        decreases events@.len(),
    {
        let ghost before = events@;
        let ghost project = state@;
        match events.pop_front() {
            Some(event) => {
                let outcome = apply_event(state, event);
                report.push(outcome);
                proof {
                    let pending = event_views(before);
                    assert(pending[0] == event@);
                    assert(event_views(events@) =~= pending.skip(1));
                    assert(report@ + outcomes_all(state@, event_views(events@)) =~= report@.drop_last()
                        + outcomes_all(project, pending));
                }
            },
            None => {
                assert(report@ + outcomes_all(state@, event_views(events@)) =~= report@);
                break ;
            },
        }
    }
    report
}

} // verus!
