//! The engine: the state machine that owns the output stream, and the body
//! of the render callback.
//!
//! The engine decides; its caller acts. Each command yields the actions to
//! perform on the hardware, in order, and the caller reports back whether
//! a stream that it was asked to build came up. Every command begins by
//! stopping whatever stream there is, so none is ever built beside
//! another.

use crate::control::{pop_command, taken, AudioEngineEvent};
use crate::mixer::{is_mix, silence};
use crate::project::Project;
use crate::stream_config::{
    AudioError, SampleFormat, StreamConfig, SupportedStreamConfig, OUTPUT_CHANNELS,
};
use rtrb::Consumer;
use vstd::prelude::*;

verus! {

/// What the render callback keeps between calls. `sample_rate` is in
/// hertz, `buffer_start` the playback time of the buffer last rendered, in
/// nanoseconds of the stream's clock.
#[derive(Clone, Copy, PartialEq, Eq, Structural, Debug)]
pub struct EngineConfig {
    pub sample_rate: u32,
    pub channels: usize,
    pub timer: u64,
    pub real_buffer_size: Option<usize>,
    pub buffer_start: Option<u64>,
}

/// Everything needed to build one stream.
#[derive(Clone, Copy, PartialEq, Eq, Structural, Debug)]
pub struct StreamPlan {
    pub device_index: usize,
    pub stream_config: StreamConfig,
    pub engine_config: EngineConfig,
}

/// Where the engine stands.
#[derive(Clone, Copy, PartialEq, Eq, Structural, Debug)]
pub enum EngineState {
    /// No stream.
    Idle,
    /// The caller has been asked to build this stream and has not answered.
    Configuring(StreamPlan),
    /// This stream is running.
    Streaming(StreamPlan),
}

/// Something for the caller to do to the hardware.
#[derive(Clone, Copy, PartialEq, Eq, Structural, Debug)]
pub enum EngineAction {
    /// Stop the stream and drop its handle.
    StopStream,
    /// Build this stream and start it, then report through `stream_built`
    /// whether it runs.
    BuildStream(StreamPlan),
    /// Tell the user that the last command failed.
    Report(AudioError),
}

/// The engine.
#[derive(Clone, Copy, PartialEq, Eq, Structural, Debug)]
pub struct AudioEngine {
    pub state: EngineState,
}

/// The plan for a stream on the device at `device_index` of `device_count`
/// output devices, or why there is none: no such device, or samples in
/// another format than 32-bit floating point.
pub open spec fn planned_stream(
    config: SupportedStreamConfig,
    device_index: usize,
    buffer_size: u32,
    device_count: usize,
) -> Result<StreamPlan, AudioError> {
    if device_index >= device_count {
        Err(AudioError::DeviceUnavailable)
    } else if config.sample_format != SampleFormat::F32 {
        Err(AudioError::ConfigurationError)
    } else {
        Ok(
            StreamPlan {
                device_index,
                stream_config: StreamConfig {
                    channels: OUTPUT_CHANNELS,
                    sample_rate: config.sample_rate,
                    buffer_size,
                },
                engine_config: EngineConfig {
                    sample_rate: config.sample_rate,
                    channels: config.channels as usize,
                    timer: 0,
                    real_buffer_size: None,
                    buffer_start: None,
                },
            },
        )
    }
}

/// The state after a command, and the actions it calls for: first to
/// stop whatever stream there is, then, for an enable command, to build
/// the stream planned for it or to report why none can be planned.
pub open spec fn handled(state: EngineState, event: AudioEngineEvent, device_count: usize) -> (
    EngineState,
    Seq<EngineAction>,
) {
    let stop: Seq<EngineAction> = seq![EngineAction::StopStream];
    match event {
        AudioEngineEvent::Disable => (EngineState::Idle, stop),
        AudioEngineEvent::Enable { device_index, buffer_size, config } => match planned_stream(
            config,
            device_index,
            buffer_size,
            device_count,
        ) {
            Ok(plan) => (EngineState::Configuring(plan), stop.push(EngineAction::BuildStream(plan))),
            Err(error) => (EngineState::Idle, stop.push(EngineAction::Report(error))),
        },
    }
}

/// The state after one look into the control queue, and the actions it
/// calls for, given what had been taken from the queue before the look
/// and what has been taken after it: where nothing more was taken nothing
/// changes, otherwise the command taken last is handled.
pub open spec fn polled(
    state: EngineState,
    before: Seq<AudioEngineEvent>,
    after: Seq<AudioEngineEvent>,
    device_count: usize,
) -> (EngineState, Seq<EngineAction>) {
    if after == before {
        (state, Seq::empty())
    } else {
        handled(state, after.last(), device_count)
    }
}

/// The state after the caller reports on a build, and the actions that
/// the report calls for: none for a stream that runs, a report to the user
/// for one that failed. A report that was not asked for changes nothing.
pub open spec fn reported(state: EngineState, success: bool) -> (EngineState, Seq<EngineAction>) {
    match state {
        EngineState::Configuring(plan) => if success {
            (EngineState::Streaming(plan), Seq::empty())
        } else {
            (EngineState::Idle, seq![EngineAction::Report(AudioError::ConfigurationError)])
        },
        _ => (state, Seq::empty()),
    }
}

/// Number of hardware streams alive once the caller has performed
/// `action` with `live` of them alive before; `success` says whether a
/// build comes up.
pub open spec fn live_after(live: nat, action: EngineAction, success: bool) -> nat {
    match action {
        EngineAction::StopStream => 0,
        EngineAction::BuildStream(_) => if success {
            live + 1
        } else {
            live
        },
        _ => live,
    }
}

/// Number of hardware streams alive once the caller has performed all of
/// `actions`, first to last.
pub open spec fn live_after_all(live: nat, actions: Seq<EngineAction>, success: bool) -> nat
    decreases actions.len(),
{
    if actions.len() == 0 {
        live
    } else {
        live_after_all(live_after(live, actions[0], success), actions.skip(1), success)
    }
}

/// Whether at most one hardware stream is alive before, between and after
/// the actions.
pub open spec fn never_two(live: nat, actions: Seq<EngineAction>, success: bool) -> bool
    decreases actions.len(),
{
    live <= 1 && (actions.len() > 0 ==> never_two(
        live_after(live, actions[0], success),
        actions.skip(1),
        success,
    ))
}

/// Whether the engine's state tells the number of hardware streams: one
/// while streaming, none otherwise.
pub open spec fn in_step(state: EngineState, live: nat) -> bool {
    if state is Streaming {
        live == 1
    } else {
        live == 0
    }
}

/// One command served in full: the engine handles it, the caller performs
/// the actions, and where a build was asked for the caller reports
/// `success` and performs what the report calls for. Gives the state and
/// the number of hardware streams afterwards.
pub open spec fn served(
    state: EngineState,
    live: nat,
    event: AudioEngineEvent,
    success: bool,
    device_count: usize,
) -> (EngineState, nat) {
    let (next, actions) = handled(state, event, device_count);
    let live_then = live_after_all(live, actions, success);
    if next is Configuring {
        let (last, more) = reported(next, success);
        (last, live_after_all(live_then, more, success))
    } else {
        (next, live_then)
    }
}

/// Whether at most one hardware stream is alive at every moment while one
/// command is served.
pub open spec fn served_never_two(
    state: EngineState,
    live: nat,
    event: AudioEngineEvent,
    success: bool,
    device_count: usize,
) -> bool {
    let (next, actions) = handled(state, event, device_count);
    let live_then = live_after_all(live, actions, success);
    never_two(live, actions, success) && (next is Configuring ==> never_two(
        live_then,
        reported(next, success).1,
        success,
    ))
}

/// State and number of hardware streams after a run of commands, each
/// paired with whether a build asked for by it comes up.
pub open spec fn served_all(
    state: EngineState,
    live: nat,
    commands: Seq<(AudioEngineEvent, bool)>,
    device_count: usize,
) -> (EngineState, nat)
    decreases commands.len(),
{
    if commands.len() == 0 {
        (state, live)
    } else {
        let (next, live_next) = served(state, live, commands[0].0, commands[0].1, device_count);
        served_all(next, live_next, commands.skip(1), device_count)
    }
}

/// Whether at most one hardware stream is alive at every moment of a run
/// of commands.
pub open spec fn served_all_never_two(
    state: EngineState,
    live: nat,
    commands: Seq<(AudioEngineEvent, bool)>,
    device_count: usize,
) -> bool
    decreases commands.len(),
{
    commands.len() > 0 ==> {
        let (next, live_next) = served(state, live, commands[0].0, commands[0].1, device_count);
        &&& served_never_two(state, live, commands[0].0, commands[0].1, device_count)
        &&& served_all_never_two(next, live_next, commands.skip(1), device_count)
    }
}

/// Serving one command keeps the engine in step with the hardware, and
/// never are two streams alive on the way.
pub proof fn lemma_served_in_step(
    state: EngineState,
    live: nat,
    event: AudioEngineEvent,
    success: bool,
    device_count: usize,
)
    requires
        live <= 1,
    ensures
        in_step(
            served(state, live, event, success, device_count).0,
            served(state, live, event, success, device_count).1,
        ),
        !(served(state, live, event, success, device_count).0 is Configuring),
        served_never_two(state, live, event, success, device_count),
{
    reveal_with_fuel(live_after_all, 4);
    reveal_with_fuel(never_two, 4);
    let (next, actions) = handled(state, event, device_count);
    if actions.len() == 2 {
        assert(actions.skip(1)[0] == actions[1]);
        assert(actions.skip(1).skip(1).len() == 0);
    } else {
        assert(actions.skip(1).len() == 0);
    }
    if next is Configuring {
        let more = reported(next, success).1;
        if more.len() == 1 {
            assert(more.skip(1).len() == 0);
        }
    }
}

/// For every run of enable and disable commands, whatever builds come up
/// or fail: at most one hardware stream is alive at every moment, and
/// once a command has been served the engine streams exactly when one is
/// alive.
pub proof fn lemma_at_most_one_stream(
    state: EngineState,
    live: nat,
    commands: Seq<(AudioEngineEvent, bool)>,
    device_count: usize,
)
    requires
        live <= 1,
    ensures
        served_all_never_two(state, live, commands, device_count),
        commands.len() > 0 ==> in_step(
            served_all(state, live, commands, device_count).0,
            served_all(state, live, commands, device_count).1,
        ),
        served_all(state, live, commands, device_count).1 <= 1,
    decreases commands.len(),
{
    if commands.len() > 0 {
        lemma_served_in_step(state, live, commands[0].0, commands[0].1, device_count);
        let (next, live_next) = served(state, live, commands[0].0, commands[0].1, device_count);
        lemma_at_most_one_stream(next, live_next, commands.skip(1), device_count);
    }
}

/// After an enable command whose device exists, whose format is supported
/// and whose build comes up, the engine streams with the plan of that
/// command, whatever it did before.
pub proof fn lemma_enable_binds_last_configuration(
    state: EngineState,
    live: nat,
    event: AudioEngineEvent,
    device_count: usize,
)
    requires
        event matches AudioEngineEvent::Enable { device_index, buffer_size, config }
            && planned_stream(config, device_index, buffer_size, device_count) is Ok,
    ensures
        event matches AudioEngineEvent::Enable { device_index, buffer_size, config } && served(
            state,
            live,
            event,
            true,
            device_count,
        ).0 == EngineState::Streaming(
            planned_stream(config, device_index, buffer_size, device_count)->Ok_0,
        ),
{
}

/// After a disable command the engine is idle and no stream is alive,
/// whatever it did before.
pub proof fn lemma_disable_stops(state: EngineState, live: nat, success: bool, device_count: usize)
    ensures
        served(state, live, AudioEngineEvent::Disable, success, device_count) == (
            EngineState::Idle,
            0nat,
        ),
{
    reveal_with_fuel(live_after_all, 3);
    let actions = handled(state, AudioEngineEvent::Disable, device_count).1;
    assert(actions.skip(1).len() == 0);
}

impl AudioEngine {
    /// An idle engine.
    pub fn init() -> (engine: AudioEngine)
        ensures
            engine.state == EngineState::Idle,
    {
        AudioEngine { state: EngineState::Idle }
    }

    /// Plans the stream of an enable command: on the device at
    /// `device_index`, which must exist among the `device_count` output
    /// devices, in stereo at the configuration's sample rate with a fixed
    /// buffer size. Only 32-bit floating point samples are supported.
    pub fn build_stream(
        config: SupportedStreamConfig,
        device_index: usize,
        buffer_size: u32,
        device_count: usize,
    ) -> (plan: Result<StreamPlan, AudioError>)
        ensures
            plan == planned_stream(config, device_index, buffer_size, device_count),
    {
        if device_index >= device_count {
            return Err(AudioError::DeviceUnavailable);
        }
        match config.sample_format {
            SampleFormat::F32 => {},
            _ => {
                return Err(AudioError::ConfigurationError);
            },
        }
        Ok(
            StreamPlan {
                device_index,
                stream_config: StreamConfig {
                    channels: OUTPUT_CHANNELS,
                    sample_rate: config.sample_rate,
                    buffer_size,
                },
                engine_config: EngineConfig {
                    sample_rate: config.sample_rate,
                    channels: config.channels as usize,
                    timer: 0,
                    real_buffer_size: None,
                    buffer_start: None,
                },
            },
        )
    }

    /// Takes one command. The first action is always to stop whatever
    /// stream there is. A disable command leaves the engine idle. An enable command asks for
    /// its stream to be built, or, where no stream can be planned for it,
    /// reports why and leaves the engine idle.
    pub fn handle_event(&mut self, event: AudioEngineEvent, device_count: usize) -> (actions: Vec<
        EngineAction,
    >)
        ensures
            final(self).state == handled(old(self).state, event, device_count).0,
            actions@ == handled(old(self).state, event, device_count).1,
    {
        let mut actions: Vec<EngineAction> = Vec::new();
        actions.push(EngineAction::StopStream);
        match event {
            AudioEngineEvent::Disable => {
                self.state = EngineState::Idle;
            },
            AudioEngineEvent::Enable { device_index, buffer_size, config } => {
                match AudioEngine::build_stream(config, device_index, buffer_size, device_count) {
                    Ok(plan) => {
                        actions.push(EngineAction::BuildStream(plan));
                        self.state = EngineState::Configuring(plan);
                    },
                    Err(error) => {
                        actions.push(EngineAction::Report(error));
                        self.state = EngineState::Idle;
                    },
                }
            },
        }
        assert(actions@ =~= handled(old(self).state, event, device_count).1);
        actions
    }

    /// Takes the caller's report on the stream it was asked to build and
    /// start: with a stream that runs the engine is streaming, one that
    /// failed is reported and leaves the engine idle.
    pub fn stream_built(&mut self, success: bool) -> (actions: Vec<EngineAction>)
        ensures
            final(self).state == reported(old(self).state, success).0,
            actions@ == reported(old(self).state, success).1,
    {
        let mut actions: Vec<EngineAction> = Vec::new();
        match self.state {
            EngineState::Configuring(plan) => {
                if success {
                    self.state = EngineState::Streaming(plan);
                } else {
                    self.state = EngineState::Idle;
                    actions.push(EngineAction::Report(AudioError::ConfigurationError));
                }
            },
            _ => {},
        }
        assert(actions@ =~= reported(old(self).state, success).1);
        actions
    }

    /// Looks once into the control queue, without waiting. With nothing
    /// pending nothing changes and nothing is to be done; otherwise the
    /// oldest pending command is taken and handled.
    pub fn poll(&mut self, event_rx: &mut Consumer<AudioEngineEvent>, device_count: usize) -> (actions:
        Vec<EngineAction>)
        ensures
            taken(*final(event_rx)) == taken(*old(event_rx)) || taken(*final(event_rx)) == taken(
                *old(event_rx),
            ).push(taken(*final(event_rx)).last()),
            (final(self).state, actions@) == polled(
                old(self).state,
                taken(*old(event_rx)),
                taken(*final(event_rx)),
                device_count,
            ),
    {
        match pop_command(event_rx) {
            Some(event) => self.handle_event(event, device_count),
            None => Vec::new(),
        }
    }

    /// The body of the render callback: notes the playback time of this
    /// buffer and, on the first call, its length, then writes the master
    /// mix of the project over `data`, whose length is kept.
    pub fn process_audio(
        data: &mut Vec<i128>,
        playback: u64,
        project: &Project,
        config: &mut EngineConfig,
    )
        ensures
            final(data).len() == old(data).len(),
            exists|sources: Seq<Seq<i16>>| #[trigger]
                is_mix(project@.mixer.channels, sources, final(data)@),
            *final(config) == (EngineConfig {
                buffer_start: Some(playback),
                real_buffer_size: if old(config).real_buffer_size is None {
                    Some(old(data).len())
                } else {
                    old(config).real_buffer_size
                },
                ..*old(config)
            }),
    {
        config.buffer_start = Some(playback);
        if config.real_buffer_size.is_none() {
            config.real_buffer_size = Some(data.len());
        }
        project.mixer.render_buffer(data);
    }

    /// Fills `data` with silence: what the render callback writes when it
    /// cannot read the project in time.
    pub fn render_silence(data: &mut Vec<i128>)
        ensures
            final(data).len() == old(data).len(),
            forall|i: int| 0 <= i < final(data).len() ==> #[trigger] final(data)[i] == 0,
    {
        silence(data);
    }
}

} // verus!
