//! What the interface owns besides the project: the audio settings, the
//! plugin list and the queue of events waiting to be applied.

use crate::control::{accepted, capacity, AudioEngineEvent};
use crate::handler::{applied_all, outcomes_all, ui_event_handler, EventOutcome};
use crate::project::Project;
use crate::settings::{AudioSettings, AudioSettingsView, DeviceResult};
use crate::stream_config::AudioError;
use crate::ui_event::{event_views, DeviceRequest, UiEvent};
use crate::vsts::VstSettings;
use rtrb::Producer;
use std::collections::VecDeque;
use vstd::prelude::*;

verus! {

/// The state of the interface.
pub struct SystemState {
    pub audio: AudioSettings,
    pub vsts: VstSettings,
    pub ui_events: VecDeque<UiEvent>,
}

/// What became of one frame's events: the outcome of each event, in
/// queue order, and the result of each device request among them, in the
/// same order.
#[derive(Debug)]
pub struct FrameReport {
    pub outcomes: Vec<EventOutcome>,
    pub device_results: Vec<Result<(), AudioError>>,
}

/// The device requests among the first `count` outcomes, in order.
pub open spec fn device_requests(outcomes: Seq<EventOutcome>, count: nat) -> Seq<DeviceRequest>
    decreases count,
{
    if count == 0 || count > outcomes.len() {
        Seq::empty()
    } else {
        match outcomes[count - 1] {
            EventOutcome::Device(request) => device_requests(outcomes, (count - 1) as nat).push(
                request,
            ),
            _ => device_requests(outcomes, (count - 1) as nat),
        }
    }
}

impl SystemState {
    /// The state at start-up: audio settings over `devices` with the
    /// active output announced to the engine through `audio_update_tx`, no
    /// plugins and no events waiting. Fails as `AudioSettings::new` does.
    pub fn new(audio_update_tx: Producer<AudioEngineEvent>, devices: DeviceResult) -> (state: Result<
        SystemState,
        AudioError,
    >)
        ensures
            match state {
                Ok(made) => AudioSettingsView::initial(
                    devices,
                    accepted(audio_update_tx),
                    capacity(audio_update_tx),
                ).announced(made.audio@) && made.vsts.vst_list@.len() == 0 && made.ui_events@.len()
                    == 0,
                Err(error) => AudioSettingsView::initial(
                    devices,
                    accepted(audio_update_tx),
                    capacity(audio_update_tx),
                ).refused(error),
            },
    {
        match AudioSettings::new(audio_update_tx, devices) {
            Ok(audio) => Ok(
                SystemState {
                    audio,
                    vsts: VstSettings::default(),
                    ui_events: VecDeque::with_capacity(2),
                },
            ),
            Err(error) => Err(error),
        }
    }

    /// Applies the events of one frame. The queue is emptied into the
    /// project as by `ui_event_handler`; then the device requests among
    /// the events are carried out on the audio settings, first to last,
    /// each whatever became of those before it.
    pub fn handle_events(&mut self, project: &mut Project) -> (report: FrameReport)
        ensures
            final(self).ui_events@.len() == 0,
            final(self).vsts == old(self).vsts,
            final(project)@ == applied_all(old(project)@, event_views(old(self).ui_events@)),
            report.outcomes@ == outcomes_all(old(project)@, event_views(old(self).ui_events@)),
            old(self).ui_events@.len() == 0 ==> *final(project) == *old(project),
            exists|states: Seq<AudioSettingsView>| #[trigger]
                old(self).audio@.requests_served(
                    device_requests(report.outcomes@, report.outcomes@.len()),
                    states,
                    report.device_results@,
                ) && final(self).audio@ == old(self).audio@.before_request(
                    states,
                    states.len() as int,
                ),
    {
        let outcomes = ui_event_handler(project, &mut self.ui_events);
        let mut device_results: Vec<Result<(), AudioError>> = Vec::new();
        let ghost start = self.audio@;
        let ghost mut states: Seq<AudioSettingsView> = Seq::empty();
        let mut i: usize = 0;
        while i < outcomes.len()
            invariant
                i <= outcomes.len(),
                self.ui_events@.len() == 0,
                self.vsts == old(self).vsts,
                start.requests_served(device_requests(outcomes@, i as nat), states, device_results@),
                self.audio@ == start.before_request(states, states.len() as int),
            decreases outcomes.len() - i,
        {
            match outcomes[i] {
                EventOutcome::Device(request) => {
                    let result = self.audio.apply_request(request);
                    device_results.push(result);
                    proof {
                        states = states.push(self.audio@);
                    }
                },
                _ => {},
            }
            i = i + 1;
        }
        let report = FrameReport { outcomes, device_results };
        assert(start.requests_served(
            device_requests(report.outcomes@, report.outcomes@.len()),
            states,
            report.device_results@,
        ));
        report
    }

    /// Queues an event behind those already waiting.
    pub fn dispatch(&mut self, event: UiEvent)
        ensures
            final(self).ui_events@ == old(self).ui_events@.push(event),
            final(self).audio == old(self).audio,
            final(self).vsts == old(self).vsts,
    {
        self.ui_events.push_back(event);
    }
}

} // verus!
