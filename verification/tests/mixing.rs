use daw_core::channel::Channel;
use daw_core::levels::{left_gain, right_gain, MAX_CONTRIBUTION, PAN_UNIT, VOLUME_UNIT};
use daw_core::mixer::Mixer;
use daw_core::noise::noise_source;

fn channel(volume: u32, panning: i32, muted: bool) -> Channel {
    Channel { volume, panning, muted, name: String::from("test") }
}

#[test]
fn pan_hard_left_silences_the_right() {
    assert_eq!(left_gain(-PAN_UNIT), 1000);
    assert_eq!(right_gain(-PAN_UNIT), 0);
}

#[test]
fn pan_hard_right_silences_the_left() {
    assert_eq!(left_gain(PAN_UNIT), 0);
    assert_eq!(right_gain(PAN_UNIT), 1000);
}

#[test]
fn pan_centre_leaves_both_sides_at_full_gain() {
    assert_eq!(left_gain(0), 1000);
    assert_eq!(right_gain(0), 1000);
}

#[test]
fn pan_law_is_linear_between_centre_and_edge() {
    assert_eq!(left_gain(250), 750);
    assert_eq!(right_gain(250), 1000);
    assert_eq!(left_gain(-250), 1000);
    assert_eq!(right_gain(-250), 750);
    assert_eq!(left_gain(999), 1);
    assert_eq!(right_gain(-999), 1);
}

#[test]
fn pan_law_clamps_positions_beyond_the_edges() {
    assert_eq!(left_gain(5_000), 0);
    assert_eq!(right_gain(5_000), 1000);
    assert_eq!(left_gain(-5_000), 1000);
    assert_eq!(right_gain(-5_000), 0);
    assert_eq!(left_gain(i32::MAX), 0);
    assert_eq!(right_gain(i32::MAX), 1000);
    assert_eq!(left_gain(i32::MIN), 1000);
    assert_eq!(right_gain(i32::MIN), 0);
}

#[test]
fn new_channel_is_silent_centred_and_unmuted() {
    let made = Channel::new("Lead");
    assert_eq!(made.volume, 0);
    assert_eq!(made.panning, 0);
    assert!(!made.muted);
    assert_eq!(made.name, "Lead");
}

#[test]
fn render_frame_at_unit_volume_and_centre_passes_the_sample() {
    let unit = channel(VOLUME_UNIT, 0, false);
    assert_eq!(unit.render_frame(1_000), (1_000, 1_000));
    assert_eq!(unit.render_frame(-2_000), (-2_000, -2_000));
    assert_eq!(unit.render_frame(i16::MAX), (32_767, 32_767));
    assert_eq!(unit.render_frame(i16::MIN), (-32_768, -32_768));
    assert_eq!(unit.render_frame(0), (0, 0));
}

#[test]
fn render_frame_scales_by_volume_and_pan() {
    let half_right = channel(50_000, 500, false);
    assert_eq!(half_right.render_frame(1_000), (250, 500));
    let eighty_left = channel(80_000, -1000, false);
    assert_eq!(eighty_left.render_frame(1_000), (800, 0));
    let double = channel(200_000, 0, false);
    assert_eq!(double.render_frame(100), (200, 200));
}

#[test]
fn render_frame_rounds_towards_zero() {
    let half = channel(50_000, 0, false);
    assert_eq!(half.render_frame(3), (1, 1));
    assert_eq!(half.render_frame(-3), (-1, -1));
    assert_eq!(half.render_frame(1), (0, 0));
    assert_eq!(half.render_frame(-1), (0, 0));
}

#[test]
fn render_frame_stays_within_the_largest_contribution() {
    let loudest = channel(u32::MAX, 0, false);
    assert_eq!(loudest.render_frame(i16::MIN), (-MAX_CONTRIBUTION, -MAX_CONTRIBUTION));
    assert_eq!(loudest.render_frame(i16::MAX), (1_407_331_933, 1_407_331_933));
}

#[test]
fn render_frame_of_a_muted_channel_is_silent() {
    assert_eq!(channel(VOLUME_UNIT, 0, true).render_frame(12_345), (0, 0));
}

#[test]
fn render_source_interleaves_left_and_right() {
    let strip = channel(VOLUME_UNIT, 500, false);
    assert_eq!(strip.render_source(&vec![1_000, -2_000], 4), vec![500, 1_000, -1_000, -2_000]);
}

#[test]
fn render_source_leaves_an_odd_last_sample_silent() {
    let strip = channel(VOLUME_UNIT, 0, false);
    assert_eq!(strip.render_source(&vec![7, 8, 9], 5), vec![7, 7, 8, 8, 0]);
    assert_eq!(strip.render_source(&vec![7], 1), vec![0]);
}

#[test]
fn render_source_is_silent_beyond_the_end_of_the_source() {
    let strip = channel(VOLUME_UNIT, 0, false);
    assert_eq!(strip.render_source(&vec![5], 6), vec![5, 5, 0, 0, 0, 0]);
    assert_eq!(strip.render_source(&vec![], 4), vec![0, 0, 0, 0]);
}

#[test]
fn render_source_of_an_empty_buffer_is_empty() {
    assert_eq!(channel(VOLUME_UNIT, 0, false).render_source(&vec![1, 2], 0), Vec::<i64>::new());
}

#[test]
fn muted_channel_renders_silence_for_any_length() {
    let muted = channel(VOLUME_UNIT, 0, true);
    for size in [0usize, 1, 2, 3, 64, 1024, 1921] {
        let source = vec![i16::MAX; size];
        assert_eq!(muted.render_source(&source, size), vec![0i64; size]);
        assert_eq!(muted.render_buffer(size), vec![0i64; size]);
    }
}

#[test]
fn zero_volume_renders_silence() {
    let silent = channel(0, 0, false);
    assert_eq!(silent.render_source(&vec![i16::MAX, i16::MIN], 4), vec![0, 0, 0, 0]);
    assert_eq!(silent.render_buffer(8), vec![0i64; 8]);
}

#[test]
fn render_buffer_draws_one_sample_for_each_frame() {
    let strip = channel(VOLUME_UNIT, 0, false);
    let buffer = strip.render_buffer(1920);
    assert_eq!(buffer.len(), 1920);
    for frame in buffer.chunks(2) {
        assert_eq!(frame[0], frame[1]);
        assert!(frame[0] >= i16::MIN as i64 && frame[0] <= i16::MAX as i64);
    }
    assert!(buffer.iter().any(|sample| *sample != 0));
}

#[test]
fn render_buffer_hard_left_keeps_the_right_silent() {
    let strip = channel(VOLUME_UNIT, -1000, false);
    let buffer = strip.render_buffer(512);
    for frame in buffer.chunks(2) {
        assert_eq!(frame[1], 0);
    }
    assert!(buffer.iter().any(|sample| *sample != 0));
}

#[test]
fn render_buffer_leaves_an_odd_last_sample_silent() {
    let buffer = channel(VOLUME_UNIT, 0, false).render_buffer(7);
    assert_eq!(buffer.len(), 7);
    assert_eq!(buffer[6], 0);
}

#[test]
fn noise_source_has_the_length_asked_for() {
    assert_eq!(noise_source(0).len(), 0);
    assert_eq!(noise_source(480).len(), 480);
}

#[test]
fn noise_source_is_not_constant() {
    let source = noise_source(4096);
    assert!(source.iter().any(|sample| *sample != source[0]));
}

#[test]
fn default_mixer_has_master_and_two_channels() {
    let mixer = Mixer::default();
    assert_eq!(mixer.channels.len(), 3);
    assert_eq!(mixer.channels[0].name, "Master");
    assert_eq!(mixer.channels[1].name, "Channel 1");
    assert_eq!(mixer.channels[2].name, "Channel 2");
    assert_eq!(mixer.selected_channel, None);
    for strip in &mixer.channels {
        assert_eq!(strip.volume, 0);
        assert_eq!(strip.panning, 0);
        assert!(!strip.muted);
    }
}

#[test]
fn add_channel_names_by_count() {
    let mut mixer = Mixer::default();
    mixer.selected_channel = Some(1);
    mixer.add_channel();
    assert_eq!(mixer.channels.len(), 4);
    assert_eq!(mixer.channels[3].name, "Channel 4");
    assert_eq!(mixer.channels[3].volume, 0);
    assert_eq!(mixer.channels[3].panning, 0);
    assert!(!mixer.channels[3].muted);
    assert_eq!(mixer.channels[0].name, "Master");
    assert_eq!(mixer.selected_channel, Some(1));
    for _ in 0..7 {
        mixer.add_channel();
    }
    assert_eq!(mixer.channels[10].name, "Channel 11");
}

#[test]
fn add_channel_to_an_empty_mixer() {
    let mut mixer = Mixer { channels: Vec::new(), selected_channel: None };
    mixer.add_channel();
    assert_eq!(mixer.channels.len(), 1);
    assert_eq!(mixer.channels[0].name, "Channel 1");
}

#[test]
fn mix_sources_sums_the_channels() {
    let mixer = Mixer {
        channels: vec![
            channel(VOLUME_UNIT, 0, false),
            channel(50_000, -1000, false),
            channel(VOLUME_UNIT, 1000, false),
        ],
        selected_channel: None,
    };
    let sources = vec![vec![100, 200], vec![1_000, 2_000], vec![-10, -20]];
    let mut data = vec![99i128; 4];
    mixer.mix_sources(&sources, &mut data);
    assert_eq!(data, vec![600, 90, 1_200, 180]);
}

#[test]
fn mix_sources_overwrites_what_was_in_the_buffer() {
    let mixer = Mixer { channels: Vec::new(), selected_channel: None };
    let mut data = vec![5i128, -5, 5];
    mixer.mix_sources(&Vec::new(), &mut data);
    assert_eq!(data, vec![0, 0, 0]);
}

#[test]
fn mix_sources_feeds_silence_to_channels_without_a_source() {
    let mixer = Mixer {
        channels: vec![channel(VOLUME_UNIT, 0, false), channel(VOLUME_UNIT, 0, false)],
        selected_channel: None,
    };
    let mut data = vec![0i128; 4];
    mixer.mix_sources(&vec![vec![3, 4]], &mut data);
    assert_eq!(data, vec![3, 3, 4, 4]);
}

#[test]
fn muted_channel_adds_nothing_to_the_mix() {
    let sources = vec![vec![100, 200, 300], vec![i16::MAX, i16::MIN, 77], vec![-10, -20, -30]];
    let with_muted = Mixer {
        channels: vec![
            channel(VOLUME_UNIT, 0, false),
            channel(u32::MAX, 0, true),
            channel(VOLUME_UNIT, 0, false),
        ],
        selected_channel: None,
    };
    let without = Mixer {
        channels: vec![channel(VOLUME_UNIT, 0, false), channel(VOLUME_UNIT, 0, false)],
        selected_channel: None,
    };
    let fewer = vec![sources[0].clone(), sources[2].clone()];
    for size in [0usize, 1, 2, 5, 6, 9] {
        let mut left = vec![1i128; size];
        let mut right = vec![2i128; size];
        with_muted.mix_sources(&sources, &mut left);
        without.mix_sources(&fewer, &mut right);
        assert_eq!(left, right);
    }
}

#[test]
fn all_channels_muted_mix_to_silence() {
    let mut mixer = Mixer::default();
    for strip in mixer.channels.iter_mut() {
        strip.volume = VOLUME_UNIT;
        strip.muted = true;
    }
    let mut data = vec![9i128; 33];
    mixer.render_buffer(&mut data);
    assert_eq!(data, vec![0i128; 33]);
}

#[test]
fn render_buffer_of_the_default_mixer_is_silent() {
    let mixer = Mixer::default();
    let mut data = vec![9i128; 16];
    mixer.render_buffer(&mut data);
    assert_eq!(data, vec![0i128; 16]);
}

#[test]
fn render_buffer_keeps_the_length_and_mixes_noise() {
    let mut mixer = Mixer::default();
    mixer.channels[1].volume = VOLUME_UNIT;
    mixer.channels[2].volume = VOLUME_UNIT;
    mixer.channels[2].panning = 1000;
    let mut data = vec![0i128; 960];
    mixer.render_buffer(&mut data);
    assert_eq!(data.len(), 960);
    assert!(data.iter().any(|sample| *sample != 0));
    for sample in &data {
        assert!(sample.abs() <= 2 * 32_768);
    }
}

#[test]
fn every_channel_is_mixed_whatever_their_number() {
    let count: usize = 65_537;
    let mut channels = Vec::new();
    for _ in 0..count {
        channels.push(channel(VOLUME_UNIT, 0, false));
    }
    let mixer = Mixer { channels, selected_channel: None };
    let sources = vec![vec![1i16, -2]; count];
    let mut data = vec![4i128; 4];
    mixer.mix_sources(&sources, &mut data);
    assert_eq!(data, vec![65_537, 65_537, -131_074, -131_074]);
}

#[test]
fn muted_channel_adds_nothing_among_many() {
    let count: usize = 65_537;
    let mut channels = Vec::new();
    for _ in 0..count {
        channels.push(channel(VOLUME_UNIT, 0, false));
    }
    channels[count - 1].muted = true;
    let with_muted = Mixer { channels, selected_channel: None };
    let mut sources = vec![Vec::new(); count];
    sources[0] = vec![1i16];
    sources[count - 1] = vec![i16::MAX];
    let mut left = vec![0i128; 2];
    with_muted.mix_sources(&sources, &mut left);

    let mut fewer_channels = Vec::new();
    for _ in 0..(count - 1) {
        fewer_channels.push(channel(VOLUME_UNIT, 0, false));
    }
    let without = Mixer { channels: fewer_channels, selected_channel: None };
    sources.pop();
    let mut right = vec![0i128; 2];
    without.mix_sources(&sources, &mut right);

    assert_eq!(left, vec![1, 1]);
    assert_eq!(left, right);
}

#[test]
fn the_mix_is_not_clipped() {
    let count: usize = 70_000;
    let mut channels = Vec::new();
    for _ in 0..count {
        channels.push(channel(u32::MAX, 0, false));
    }
    let mixer = Mixer { channels, selected_channel: None };
    let sources = vec![vec![i16::MIN]; count];
    let mut data = vec![0i128; 2];
    mixer.mix_sources(&sources, &mut data);
    let expected = -(count as i128) * (MAX_CONTRIBUTION as i128);
    assert_eq!(data, vec![expected, expected]);
}
