use daw_core::control::{control_channel, AudioEngineEvent, CONTROL_CAPACITY};
use daw_core::engine::{AudioEngine, EngineAction, EngineConfig, EngineState, StreamPlan};
use daw_core::levels::VOLUME_UNIT;
use daw_core::project::Project;
use daw_core::stream_config::{
    AudioError, SampleFormat, StreamConfig, SupportedBufferSize, SupportedStreamConfig,
};
use rtrb::RingBuffer;

fn config(sample_rate: u32) -> SupportedStreamConfig {
    SupportedStreamConfig {
        channels: 2,
        sample_rate,
        buffer_size: SupportedBufferSize::Unknown,
        sample_format: SampleFormat::F32,
    }
}

fn enable(device_index: usize, buffer_size: u32, sample_rate: u32) -> AudioEngineEvent {
    AudioEngineEvent::Enable { device_index, buffer_size, config: config(sample_rate) }
}

fn plan(device_index: usize, buffer_size: u32, sample_rate: u32) -> StreamPlan {
    StreamPlan {
        device_index,
        stream_config: StreamConfig { channels: 2, sample_rate, buffer_size },
        engine_config: EngineConfig {
            sample_rate,
            channels: 2,
            timer: 0,
            real_buffer_size: None,
            buffer_start: None,
        },
    }
}

/// Performs the actions as a driver would and returns the streams alive
/// afterwards; `alive` is checked never to exceed one on the way.
fn perform(engine: &mut AudioEngine, alive: &mut Vec<StreamPlan>, actions: Vec<EngineAction>, builds: bool) {
    for action in actions {
        match action {
            EngineAction::StopStream => alive.clear(),
            EngineAction::BuildStream(plan) => {
                if builds {
                    alive.push(plan);
                }
                assert!(alive.len() <= 1);
                let more = engine.stream_built(builds);
                perform(engine, alive, more, builds);
            }
            EngineAction::Report(_) => {}
        }
        assert!(alive.len() <= 1);
    }
}

#[test]
fn engine_starts_idle() {
    assert_eq!(AudioEngine::init().state, EngineState::Idle);
}

#[test]
fn build_stream_plans_stereo_at_the_configured_rate() {
    let planned = AudioEngine::build_stream(config(48_000), 0, 960, 2);
    assert_eq!(planned, Ok(plan(0, 960, 48_000)));
}

#[test]
fn build_stream_keeps_the_device_channel_count_for_the_callback() {
    let wide = SupportedStreamConfig { channels: 6, ..config(44_100) };
    let planned = AudioEngine::build_stream(wide, 1, 480, 2).unwrap();
    assert_eq!(planned.stream_config.channels, 2);
    assert_eq!(planned.engine_config.channels, 6);
    assert_eq!(planned.engine_config.sample_rate, 44_100);
    assert_eq!(planned.stream_config.buffer_size, 480);
}

#[test]
fn build_stream_refuses_a_missing_device() {
    assert_eq!(AudioEngine::build_stream(config(48_000), 2, 960, 2), Err(AudioError::DeviceUnavailable));
    assert_eq!(AudioEngine::build_stream(config(48_000), 0, 960, 0), Err(AudioError::DeviceUnavailable));
    assert_eq!(
        AudioEngine::build_stream(config(48_000), usize::MAX, 960, 3),
        Err(AudioError::DeviceUnavailable)
    );
}

#[test]
fn build_stream_refuses_other_sample_formats() {
    for format in [
        SampleFormat::I8,
        SampleFormat::I16,
        SampleFormat::I32,
        SampleFormat::I64,
        SampleFormat::U8,
        SampleFormat::U16,
        SampleFormat::U32,
        SampleFormat::U64,
        SampleFormat::F64,
    ] {
        let other = SupportedStreamConfig { sample_format: format, ..config(48_000) };
        assert_eq!(AudioEngine::build_stream(other, 0, 960, 1), Err(AudioError::ConfigurationError));
    }
}

#[test]
fn a_missing_device_is_reported_before_the_format() {
    let other = SupportedStreamConfig { sample_format: SampleFormat::I16, ..config(48_000) };
    assert_eq!(AudioEngine::build_stream(other, 5, 960, 1), Err(AudioError::DeviceUnavailable));
}

#[test]
fn enable_asks_for_a_stop_then_a_build() {
    let mut engine = AudioEngine::init();
    let actions = engine.handle_event(enable(0, 960, 48_000), 1);
    assert_eq!(
        actions,
        vec![EngineAction::StopStream, EngineAction::BuildStream(plan(0, 960, 48_000))]
    );
    assert_eq!(engine.state, EngineState::Configuring(plan(0, 960, 48_000)));
    assert!(engine.stream_built(true).is_empty());
    assert_eq!(engine.state, EngineState::Streaming(plan(0, 960, 48_000)));
}

#[test]
fn disable_stops_and_idles() {
    let mut engine = AudioEngine::init();
    engine.handle_event(enable(0, 960, 48_000), 1);
    engine.stream_built(true);
    assert_eq!(engine.handle_event(AudioEngineEvent::Disable, 1), vec![EngineAction::StopStream]);
    assert_eq!(engine.state, EngineState::Idle);
    assert_eq!(engine.handle_event(AudioEngineEvent::Disable, 1), vec![EngineAction::StopStream]);
    assert_eq!(engine.state, EngineState::Idle);
}

#[test]
fn failed_build_is_reported_and_leaves_the_engine_idle() {
    let mut engine = AudioEngine::init();
    engine.handle_event(enable(0, 960, 48_000), 1);
    assert_eq!(
        engine.stream_built(false),
        vec![EngineAction::Report(AudioError::ConfigurationError)]
    );
    assert_eq!(engine.state, EngineState::Idle);
    let actions = engine.handle_event(enable(0, 480, 44_100), 1);
    assert_eq!(actions[1], EngineAction::BuildStream(plan(0, 480, 44_100)));
}

#[test]
fn enable_of_a_missing_device_is_reported_and_stops_the_old_stream() {
    let mut engine = AudioEngine::init();
    engine.handle_event(enable(0, 960, 48_000), 1);
    engine.stream_built(true);
    let actions = engine.handle_event(enable(3, 960, 48_000), 1);
    assert_eq!(
        actions,
        vec![EngineAction::StopStream, EngineAction::Report(AudioError::DeviceUnavailable)]
    );
    assert_eq!(engine.state, EngineState::Idle);
}

#[test]
fn enable_of_an_unsupported_format_is_reported() {
    let mut engine = AudioEngine::init();
    let other = SupportedStreamConfig { sample_format: SampleFormat::I16, ..config(48_000) };
    let event = AudioEngineEvent::Enable { device_index: 0, buffer_size: 960, config: other };
    assert_eq!(
        engine.handle_event(event, 1),
        vec![EngineAction::StopStream, EngineAction::Report(AudioError::ConfigurationError)]
    );
    assert_eq!(engine.state, EngineState::Idle);
}

#[test]
fn unasked_build_report_changes_nothing() {
    let mut engine = AudioEngine::init();
    assert!(engine.stream_built(true).is_empty());
    assert_eq!(engine.state, EngineState::Idle);
    engine.handle_event(enable(0, 960, 48_000), 1);
    engine.stream_built(true);
    assert!(engine.stream_built(false).is_empty());
    assert_eq!(engine.state, EngineState::Streaming(plan(0, 960, 48_000)));
}

#[test]
fn scenario_enable_disable_enable() {
    let mut engine = AudioEngine::init();
    let mut alive = Vec::new();
    let commands =
        vec![enable(0, 960, 48_000), AudioEngineEvent::Disable, enable(1, 480, 44_100)];
    for command in commands {
        let actions = engine.handle_event(command, 2);
        perform(&mut engine, &mut alive, actions, true);
    }
    assert_eq!(alive, vec![plan(1, 480, 44_100)]);
    assert_eq!(engine.state, EngineState::Streaming(plan(1, 480, 44_100)));
}

#[test]
fn never_two_streams_over_a_run_of_commands() {
    let commands = vec![
        (enable(0, 960, 48_000), true),
        (enable(1, 480, 44_100), true),
        (enable(1, 480, 44_100), false),
        (enable(9, 480, 44_100), true),
        (enable(0, 256, 96_000), true),
        (AudioEngineEvent::Disable, true),
        (AudioEngineEvent::Disable, true),
        (enable(0, 960, 48_000), true),
        (enable(1, 960, 48_000), true),
    ];
    let mut engine = AudioEngine::init();
    let mut alive = Vec::new();
    for (command, builds) in commands {
        let actions = engine.handle_event(command, 2);
        perform(&mut engine, &mut alive, actions, builds);
        match engine.state {
            EngineState::Streaming(running) => assert_eq!(alive, vec![running]),
            EngineState::Idle => assert!(alive.is_empty()),
            EngineState::Configuring(_) => panic!("a served command leaves no build pending"),
        }
    }
    assert_eq!(alive, vec![plan(1, 960, 48_000)]);
}

#[test]
fn poll_of_an_empty_queue_does_nothing() {
    let (_tx, mut rx) = control_channel();
    let mut engine = AudioEngine::init();
    assert!(engine.poll(&mut rx, 1).is_empty());
    assert_eq!(engine.state, EngineState::Idle);
}

#[test]
fn poll_takes_one_command_at_a_time_in_order() {
    let (mut tx, mut rx) = control_channel();
    tx.push(AudioEngineEvent::Disable).unwrap();
    tx.push(enable(0, 960, 48_000)).unwrap();
    let mut engine = AudioEngine::init();
    assert_eq!(engine.poll(&mut rx, 1), vec![EngineAction::StopStream]);
    assert_eq!(engine.state, EngineState::Idle);
    assert_eq!(
        engine.poll(&mut rx, 1),
        vec![EngineAction::StopStream, EngineAction::BuildStream(plan(0, 960, 48_000))]
    );
    assert!(engine.poll(&mut rx, 1).is_empty());
    assert_eq!(engine.state, EngineState::Configuring(plan(0, 960, 48_000)));
}

#[test]
fn control_channel_holds_its_capacity_and_no_more() {
    let (mut tx, mut rx) = control_channel();
    assert_eq!(CONTROL_CAPACITY, 64);
    assert_eq!(tx.slots(), 64);
    for _ in 0..64 {
        assert!(tx.push(AudioEngineEvent::Disable).is_ok());
    }
    assert!(tx.push(AudioEngineEvent::Disable).is_err());
    assert_eq!(rx.pop(), Ok(AudioEngineEvent::Disable));
    assert!(tx.push(AudioEngineEvent::Disable).is_ok());
}

#[test]
fn poll_works_on_a_ring_made_elsewhere() {
    let (mut tx, mut rx) = RingBuffer::new(2);
    tx.push(enable(1, 128, 22_050)).unwrap();
    let mut engine = AudioEngine::init();
    let actions = engine.poll(&mut rx, 2);
    assert_eq!(actions[1], EngineAction::BuildStream(plan(1, 128, 22_050)));
}

#[test]
fn process_audio_notes_the_first_buffer_length_and_every_start() {
    let project = Project::default();
    let mut config = plan(0, 960, 48_000).engine_config;
    let mut data = vec![7i128; 1920];
    AudioEngine::process_audio(&mut data, 1_000, &project, &mut config);
    assert_eq!(config.real_buffer_size, Some(1920));
    assert_eq!(config.buffer_start, Some(1_000));
    assert_eq!(data, vec![0i128; 1920]);
    let mut shorter = vec![7i128; 512];
    AudioEngine::process_audio(&mut shorter, 2_000, &project, &mut config);
    assert_eq!(config.real_buffer_size, Some(1920));
    assert_eq!(config.buffer_start, Some(2_000));
    assert_eq!(config.sample_rate, 48_000);
    assert_eq!(config.channels, 2);
    assert_eq!(config.timer, 0);
    assert_eq!(shorter, vec![0i128; 512]);
}

#[test]
fn process_audio_renders_the_mixer() {
    let mut project = Project::default();
    project.mixer.channels[1].volume = VOLUME_UNIT;
    let mut config = plan(0, 960, 48_000).engine_config;
    let mut data = vec![0i128; 960];
    AudioEngine::process_audio(&mut data, 0, &project, &mut config);
    assert_eq!(data.len(), 960);
    assert!(data.iter().any(|sample| *sample != 0));
    for frame in data.chunks(2) {
        assert_eq!(frame[0], frame[1]);
    }
}

#[test]
fn process_audio_with_a_muted_mixer_is_silent() {
    let mut project = Project::default();
    for strip in project.mixer.channels.iter_mut() {
        strip.volume = VOLUME_UNIT;
        strip.muted = true;
    }
    let mut config = plan(0, 960, 48_000).engine_config;
    let mut data = vec![3i128; 100];
    AudioEngine::process_audio(&mut data, 0, &project, &mut config);
    assert_eq!(data, vec![0i128; 100]);
}

#[test]
fn render_silence_fills_with_zeros() {
    let mut data = vec![1i128, -2, 3];
    AudioEngine::render_silence(&mut data);
    assert_eq!(data, vec![0, 0, 0]);
    let mut empty: Vec<i128> = Vec::new();
    AudioEngine::render_silence(&mut empty);
    assert!(empty.is_empty());
}
