//! Audio settings: the catalogue of devices, which of them are active, and
//! the commands that a change of output sends to the engine.

use crate::control::{accepted, capacity, push_command, AudioEngineEvent};
use crate::stream_config::{
    clamped_rate, AudioError, SupportedStreamConfig, SupportedStreamConfigRange,
    DEFAULT_SAMPLE_RATE,
};
use crate::ui_event::DeviceRequest;
use rtrb::Producer;
use vstd::prelude::*;

verus! {

/// An audio device as the catalogue lists it: its name and the families of
/// configurations it supports, in the order in which the driver gives them.
#[derive(Debug)]
pub struct DeviceInfo {
    pub name: String,
    pub configs: Vec<SupportedStreamConfigRange>,
}

/// A catalogue entry as a value.
pub struct DeviceInfoView {
    pub name: Seq<char>,
    pub configs: Seq<SupportedStreamConfigRange>,
}

impl View for DeviceInfo {
    type V = DeviceInfoView;

    open spec fn view(&self) -> DeviceInfoView {
        DeviceInfoView { name: self.name@, configs: self.configs@ }
    }
}

/// The values of a list of devices.
pub open spec fn device_views(devices: Seq<DeviceInfo>) -> Seq<DeviceInfoView> {
    Seq::new(devices.len(), |i: int| devices[i]@)
}

/// What one enumeration of the host's devices gives.
#[derive(Debug)]
pub struct DeviceResult {
    pub input_default: DeviceInfo,
    pub output_default: DeviceInfo,
    pub input_list: Vec<DeviceInfo>,
    pub output_list: Vec<DeviceInfo>,
}

/// The audio settings. `upd_tx` is the end of the control queue that
/// commands to the engine go into.
pub struct AudioSettings {
    pub available_inputs: Vec<DeviceInfo>,
    pub available_outputs: Vec<DeviceInfo>,
    pub active_input_index: usize,
    pub active_output_index: usize,
    pub output_sample_rate: u32,
    pub output_channels: u32,
    pub output_config_range: Option<SupportedStreamConfigRange>,
    pub upd_tx: Producer<AudioEngineEvent>,
}

/// The audio settings as a value; `sent` holds the commands that the
/// control queue has accepted from them, oldest first, and
/// `queue_capacity` the number of slots that the queue was made with.
pub struct AudioSettingsView {
    pub available_inputs: Seq<DeviceInfoView>,
    pub available_outputs: Seq<DeviceInfoView>,
    pub active_input_index: usize,
    pub active_output_index: usize,
    pub output_sample_rate: u32,
    pub output_channels: u32,
    pub output_config_range: Option<SupportedStreamConfigRange>,
    pub sent: Seq<AudioEngineEvent>,
    pub queue_capacity: nat,
}

impl View for AudioSettings {
    type V = AudioSettingsView;

    open spec fn view(&self) -> AudioSettingsView {
        AudioSettingsView {
            available_inputs: device_views(self.available_inputs@),
            available_outputs: device_views(self.available_outputs@),
            active_input_index: self.active_input_index,
            active_output_index: self.active_output_index,
            output_sample_rate: self.output_sample_rate,
            output_channels: self.output_channels,
            output_config_range: self.output_config_range,
            sent: accepted(self.upd_tx),
            queue_capacity: capacity(self.upd_tx),
        }
    }
}

/// What a change of output comes to: the family of configurations used,
/// the sample rate brought into its range and the buffer size asked for.
#[derive(Clone, Copy, PartialEq, Eq, Structural, Debug)]
pub struct OutputPlan {
    pub range: SupportedStreamConfigRange,
    pub sample_rate: u32,
    pub buffer_size: u32,
}

impl OutputPlan {
    /// The command that starts the planned stream on the device at
    /// `device_index`.
    pub open spec fn enable(self, device_index: usize) -> AudioEngineEvent {
        AudioEngineEvent::Enable {
            device_index,
            buffer_size: self.buffer_size,
            config: self.range.at_rate(self.sample_rate),
        }
    }

    /// The command that starts the planned stream on the device at
    /// `device_index`.
    pub fn enable_command(&self, device_index: usize) -> (command: AudioEngineEvent)
        ensures
            command == self.enable(device_index),
    {
        AudioEngineEvent::Enable {
            device_index,
            buffer_size: self.buffer_size,
            config: SupportedStreamConfig {
                channels: self.range.channels,
                sample_rate: self.sample_rate,
                buffer_size: self.range.buffer_size,
                sample_format: self.range.sample_format,
            },
        }
    }
}

/// The plan for making the output device at `device_index` the active
/// one, with `sample_rate` wished for. There is none where no device
/// stands at that position, where the device lists no configuration, or
/// where the first family it lists has an empty range of sample rates or
/// of buffer sizes.
pub open spec fn planned_output(
    outputs: Seq<DeviceInfoView>,
    sample_rate: u32,
    device_index: usize,
) -> Result<OutputPlan, AudioError> {
    if device_index >= outputs.len() {
        Err(AudioError::DeviceUnavailable)
    } else if outputs[device_index as int].configs.len() == 0 {
        Err(AudioError::ConfigurationError)
    } else {
        let range = outputs[device_index as int].configs[0];
        if !range.well_formed() {
            Err(AudioError::ConfigurationError)
        } else {
            Ok(
                OutputPlan {
                    range,
                    sample_rate: clamped_rate(
                        sample_rate,
                        range.min_sample_rate,
                        range.max_sample_rate,
                    ),
                    buffer_size: range.buffer_size.preferred(),
                },
            )
        }
    }
}

impl AudioSettingsView {
    /// The settings over one enumeration of devices before the active
    /// output is announced: the defaults, looked up by name, are active,
    /// `sent` is what the queue has accepted so far and `queue_capacity`
    /// the number of slots it was made with.
    pub open spec fn initial(
        devices: DeviceResult,
        sent: Seq<AudioEngineEvent>,
        queue_capacity: nat,
    ) -> AudioSettingsView {
        AudioSettingsView {
            available_inputs: device_views(devices.input_list@),
            available_outputs: device_views(devices.output_list@),
            active_input_index: start_index(
                device_views(devices.input_list@),
                devices.input_default.name@,
            ) as usize,
            active_output_index: start_index(
                device_views(devices.output_list@),
                devices.output_default.name@,
            ) as usize,
            output_sample_rate: DEFAULT_SAMPLE_RATE,
            output_channels: 2,
            output_config_range: None,
            sent,
            queue_capacity,
        }
    }

    /// Whether `made` is these settings with the active output announced
    /// to the engine.
    pub open spec fn announced(self, made: AudioSettingsView) -> bool {
        self.output_updated(self.active_output_index, made, Ok(()))
    }

    /// Whether announcing the active output of these settings can fail
    /// with `error`: there is no plan for it, for that reason, or there is
    /// one and the queue is full.
    pub open spec fn refused(self, error: AudioError) -> bool {
        self.plan(self.active_output_index) == Err::<OutputPlan, AudioError>(error) || (self.plan(
            self.active_output_index,
        ) is Ok && error == AudioError::QueueFull)
    }

    /// The plan for making the output device at `device_index` active.
    pub open spec fn plan(self, device_index: usize) -> Result<OutputPlan, AudioError> {
        planned_output(self.available_outputs, self.output_sample_rate, device_index)
    }

    /// These settings with the output device at `device_index` made
    /// active under `plan`, before any command is sent.
    pub open spec fn with_output(self, device_index: usize, plan: OutputPlan) -> AudioSettingsView {
        AudioSettingsView {
            active_output_index: device_index,
            output_sample_rate: plan.sample_rate,
            output_config_range: Some(plan.range),
            ..self
        }
    }

    /// These settings with more commands accepted by the queue.
    pub open spec fn with_sent(self, commands: Seq<AudioEngineEvent>) -> AudioSettingsView {
        AudioSettingsView { sent: self.sent + commands, ..self }
    }

    /// Whether `after` and `result` are a possible end of carrying out
    /// `request` from these settings.
    ///
    /// Another output device is made active. Another sample rate or
    /// channel count is taken over, and the active output is then made
    /// active anew. Another input device becomes the active one where it
    /// exists; where it does not, the settings stay as they are and the
    /// result is `DeviceUnavailable`.
    pub open spec fn request_served(
        self,
        request: DeviceRequest,
        after: AudioSettingsView,
        result: Result<(), AudioError>,
    ) -> bool {
        match request {
            DeviceRequest::OutputDevice(index) => self.output_updated(index, after, result),
            DeviceRequest::OutputDeviceSampleRate(rate) => (AudioSettingsView {
                output_sample_rate: rate,
                ..self
            }).output_updated(self.active_output_index, after, result),
            DeviceRequest::OutputDeviceChannels(channels) => (AudioSettingsView {
                output_channels: channels,
                ..self
            }).output_updated(self.active_output_index, after, result),
            DeviceRequest::InputDevice(index) => if index < self.available_inputs.len() {
                result is Ok && after == (AudioSettingsView { active_input_index: index, ..self })
            } else {
                result == Err::<(), AudioError>(AudioError::DeviceUnavailable) && after == self
            },
        }
    }

    /// The settings before request `k` of a run that starts from these
    /// settings and leaves `states[j]` after each request `j`.
    pub open spec fn before_request(self, states: Seq<AudioSettingsView>, k: int) -> AudioSettingsView {
        if k <= 0 {
            self
        } else {
            states[k - 1]
        }
    }

    /// Whether carrying out `requests`, first to last, from these settings
    /// can leave `states[k]` and give `results[k]` at each request `k`:
    /// each request is carried out on the settings as the requests before
    /// it left them.
    pub open spec fn requests_served(
        self,
        requests: Seq<DeviceRequest>,
        states: Seq<AudioSettingsView>,
        results: Seq<Result<(), AudioError>>,
    ) -> bool {
        &&& states.len() == requests.len()
        &&& results.len() == requests.len()
        &&& forall|k: int|
            0 <= k < requests.len() ==> self.before_request(states, k).request_served(
                requests[k],
                #[trigger] states[k],
                results[k],
            )
    }

    /// Whether `after` and `result` are a possible end of making the
    /// output device at `device_index` active from these settings.
    ///
    /// Where no plan exists the settings stay as they are and the error
    /// says why. Otherwise the device, the sample rate and the family are
    /// taken over, and the disable command and then the enable command
    /// are sent: the result is `Ok` with both accepted, in that order, and
    /// `QueueFull` with the queue having refused the first, or accepted
    /// the first and refused the second.
    pub open spec fn output_updated(
        self,
        device_index: usize,
        after: AudioSettingsView,
        result: Result<(), AudioError>,
    ) -> bool {
        match self.plan(device_index) {
            Err(error) => after == self && result == Err::<(), AudioError>(error),
            Ok(plan) => {
                let chosen = self.with_output(device_index, plan);
                match result {
                    Ok(_) => after == chosen.with_sent(
                        seq![AudioEngineEvent::Disable, plan.enable(device_index)],
                    ),
                    Err(error) => error == AudioError::QueueFull && (after == chosen || after
                        == chosen.with_sent(seq![AudioEngineEvent::Disable])),
                }
            },
        }
    }
}

/// Whether every enable command in the log comes straight after a disable
/// command.
pub open spec fn disable_before_enable(log: Seq<AudioEngineEvent>) -> bool {
    forall|k: int|
        0 <= k < log.len() && (#[trigger] log[k]) is Enable ==> k > 0 && log[k - 1] is Disable
}

/// Making an output device active never sends an enable command without
/// the disable command before it: a log of commands in which every enable
/// command comes straight after a disable command stays such a log,
/// however the queue answers.
pub proof fn lemma_update_sends_disable_before_enable(
    before: AudioSettingsView,
    device_index: usize,
    after: AudioSettingsView,
    result: Result<(), AudioError>,
)
    requires
        before.output_updated(device_index, after, result),
        disable_before_enable(before.sent),
    ensures
        disable_before_enable(after.sent),
{
    if before.plan(device_index) is Ok {
        let plan = before.plan(device_index)->Ok_0;
        let disable = seq![AudioEngineEvent::Disable];
        let both = seq![AudioEngineEvent::Disable, plan.enable(device_index)];
        assert forall|k: int|
            0 <= k < after.sent.len() && (#[trigger] after.sent[k]) is Enable implies k > 0
            && after.sent[k - 1] is Disable by {
            if k < before.sent.len() {
                assert(after.sent[k] == before.sent[k]);
            } else if after.sent.len() == before.sent.len() + 2 {
                assert(after.sent == before.sent + both);
                assert(after.sent[before.sent.len() as int] == both[0]);
                assert(after.sent[before.sent.len() as int + 1] == both[1]);
            } else {
                assert(after.sent == before.sent + disable);
                assert(after.sent[before.sent.len() as int] == disable[0]);
            }
        }
    }
}

/// Carrying out a device request never sends an enable command without
/// the disable command before it.
pub proof fn lemma_request_sends_disable_before_enable(
    before: AudioSettingsView,
    request: DeviceRequest,
    after: AudioSettingsView,
    result: Result<(), AudioError>,
)
    requires
        before.request_served(request, after, result),
        disable_before_enable(before.sent),
    ensures
        disable_before_enable(after.sent),
{
    match request {
        DeviceRequest::OutputDevice(index) => {
            lemma_update_sends_disable_before_enable(before, index, after, result);
        },
        DeviceRequest::OutputDeviceSampleRate(rate) => {
            lemma_update_sends_disable_before_enable(
                AudioSettingsView { output_sample_rate: rate, ..before },
                before.active_output_index,
                after,
                result,
            );
        },
        DeviceRequest::OutputDeviceChannels(channels) => {
            lemma_update_sends_disable_before_enable(
                AudioSettingsView { output_channels: channels, ..before },
                before.active_output_index,
                after,
                result,
            );
        },
        DeviceRequest::InputDevice(_) => {},
    }
}

/// Position of the first device called `name` at or after `from`, or the
/// number of devices where there is none.
pub open spec fn first_named(devices: Seq<DeviceInfoView>, name: Seq<char>, from: int) -> int
    decreases devices.len() - from,
{
    if from < 0 || from >= devices.len() {
        devices.len() as int
    } else if devices[from].name == name {
        from
    } else {
        first_named(devices, name, from + 1)
    }
}

/// Position of the first device called `name`, or 0 where there is none.
pub open spec fn start_index(devices: Seq<DeviceInfoView>, name: Seq<char>) -> int {
    if first_named(devices, name, 0) < devices.len() {
        first_named(devices, name, 0)
    } else {
        0
    }
}

/// `first_named` finds the first device of that name and no other: the
/// device found bears the name, none before it does, and where nothing is
/// found no device bears it.
pub proof fn lemma_first_named(devices: Seq<DeviceInfoView>, name: Seq<char>, from: int)
    requires
        0 <= from <= devices.len(),
    ensures
        from <= first_named(devices, name, from) <= devices.len(),
        first_named(devices, name, from) < devices.len() ==> devices[first_named(
            devices,
            name,
            from,
        )].name == name,
        forall|j: int| from <= j < first_named(devices, name, from) ==> devices[j].name != name,
    decreases devices.len() - from,
{
    if from < devices.len() && devices[from].name != name {
        lemma_first_named(devices, name, from + 1);
    }
}

/// Position of the first device called `name`, or 0 where there is none.
pub fn get_device_index(devices: &Vec<DeviceInfo>, name: &String) -> (index: usize)
    ensures
        index == start_index(device_views(devices@), name@),
{
    let ghost views = device_views(devices@);
    let mut i: usize = 0;
    while i < devices.len()
        invariant
            i <= devices.len(),
            views == device_views(devices@),
            first_named(views, name@, 0) == first_named(views, name@, i as int),
        decreases devices.len() - i,
    {
        if devices[i].name == *name {
            return i;
        }
        i = i + 1;
    }
    0
}

impl AudioSettings {
    /// Settings over one enumeration of the host's devices: the default
    /// input and output are looked up by name and made active, the sample
    /// rate starts from `DEFAULT_SAMPLE_RATE`, the output has two
    /// channels, and the active output is announced to the engine through
    /// `upd_tx`. Fails as `update_output_config` does.
    pub fn new(upd_tx: Producer<AudioEngineEvent>, devices: DeviceResult) -> (settings: Result<
        AudioSettings,
        AudioError,
    >)
        ensures
            match settings {
                Ok(made) => AudioSettingsView::initial(
                    devices,
                    accepted(upd_tx),
                    capacity(upd_tx),
                ).announced(made@),
                Err(error) => AudioSettingsView::initial(
                    devices,
                    accepted(upd_tx),
                    capacity(upd_tx),
                ).refused(error),
            },
    {
        let active_input_index = get_device_index(&devices.input_list, &devices.input_default.name);
        let active_output_index = get_device_index(
            &devices.output_list,
            &devices.output_default.name,
        );
        let mut settings = AudioSettings {
            active_input_index,
            active_output_index,
            available_inputs: devices.input_list,
            available_outputs: devices.output_list,
            output_sample_rate: DEFAULT_SAMPLE_RATE,
            output_channels: 2,
            output_config_range: None,
            upd_tx,
        };
        match settings.update_output_config(active_output_index) {
            Ok(_) => Ok(settings),
            Err(error) => Err(error),
        }
    }

    /// Name of the active output device, if one stands at the active
    /// position.
    pub fn get_device_output_name(&self) -> (name: Option<String>)
        ensures
            match name {
                Some(text) => self.active_output_index < self@.available_outputs.len() && text@
                    == self@.available_outputs[self.active_output_index as int].name,
                None => self.active_output_index >= self@.available_outputs.len(),
            },
    {
        if self.active_output_index < self.available_outputs.len() {
            Some(self.available_outputs[self.active_output_index].name.clone())
        } else {
            None
        }
    }

    /// Name of the active input device, if one stands at the active
    /// position.
    pub fn get_device_input_name(&self) -> (name: Option<String>)
        ensures
            match name {
                Some(text) => self.active_input_index < self@.available_inputs.len() && text@
                    == self@.available_inputs[self.active_input_index as int].name,
                None => self.active_input_index >= self@.available_inputs.len(),
            },
    {
        if self.active_input_index < self.available_inputs.len() {
            Some(self.available_inputs[self.active_input_index].name.clone())
        } else {
            None
        }
    }

    /// Plans making the output device at `device_index` active: picks the
    /// first family of configurations that the device lists, brings the
    /// sample rate into its range and chooses a buffer size.
    pub fn plan_output_config(&self, device_index: usize) -> (plan: Result<OutputPlan, AudioError>)
        ensures
            plan == self@.plan(device_index),
    {
        if device_index >= self.available_outputs.len() {
            return Err(AudioError::DeviceUnavailable);
        }
        let device = &self.available_outputs[device_index];
        if device.configs.len() == 0 {
            return Err(AudioError::ConfigurationError);
        }
        let range = device.configs[0];
        let sample_rate = match range.nearest_sample_rate(self.output_sample_rate) {
            Some(rate) => rate,
            None => {
                return Err(AudioError::ConfigurationError);
            },
        };
        let buffer_size = match range.buffer_size.preferred_size() {
            Some(size) => size,
            None => {
                return Err(AudioError::ConfigurationError);
            },
        };
        Ok(OutputPlan { range, sample_rate, buffer_size })
    }

    /// Makes the output device at `device_index` active and tells the
    /// engine: a disable command, then an enable command for the device
    /// at the sample rate nearest to the current one that it supports.
    ///
    /// Where there is no such device or it supports nothing usable,
    /// nothing changes and nothing is sent. Where the queue is full the
    /// settings are changed and `QueueFull` is returned; the enable
    /// command is never sent without the disable command before it.
    pub fn update_output_config(&mut self, device_index: usize) -> (result: Result<(), AudioError>)
        ensures
            old(self)@.output_updated(device_index, final(self)@, result),
    {
        let plan = match self.plan_output_config(device_index) {
            Ok(plan) => plan,
            Err(error) => {
                return Err(error);
            },
        };
        self.active_output_index = device_index;
        self.output_sample_rate = plan.sample_rate;
        self.output_config_range = Some(plan.range);
        let ghost chosen = old(self)@.with_output(device_index, plan);
        assert(self@ == chosen);
        match push_command(&mut self.upd_tx, AudioEngineEvent::Disable) {
            Ok(_) => {},
            Err(_) => {
                return Err(AudioError::QueueFull);
            },
        }
        let enable = plan.enable_command(device_index);
        assert(self@.sent =~= chosen.sent + seq![AudioEngineEvent::Disable]);
        match push_command(&mut self.upd_tx, enable) {
            Ok(_) => {
                assert(self@.sent =~= chosen.sent + seq![
                    AudioEngineEvent::Disable,
                    plan.enable(device_index),
                ]);
                Ok(())
            },
            Err(_) => Err(AudioError::QueueFull),
        }
    }

    /// Carries out a device request of the interface: another output
    /// device, another sample rate or channel count for the active output,
    /// or another input device. A change of output is announced to the
    /// engine as by `update_output_config`; a new sample rate or channel
    /// count is kept even where that fails. An input device that does not
    /// exist is refused and the active one kept.
    pub fn apply_request(&mut self, request: DeviceRequest) -> (result: Result<(), AudioError>)
        ensures
            old(self)@.request_served(request, final(self)@, result),
    {
        match request {
            DeviceRequest::OutputDevice(index) => self.update_output_config(index),
            DeviceRequest::OutputDeviceSampleRate(rate) => {
                self.output_sample_rate = rate;
                let active = self.active_output_index;
                self.update_output_config(active)
            },
            DeviceRequest::OutputDeviceChannels(channels) => {
                self.output_channels = channels;
                let active = self.active_output_index;
                self.update_output_config(active)
            },
            DeviceRequest::InputDevice(index) => {
                if index < self.available_inputs.len() {
                    self.active_input_index = index;
                    Ok(())
                } else {
                    Err(AudioError::DeviceUnavailable)
                }
            },
        }
    }
}

} // verus!
