use daw_core::format::{duration_since_play_state, format_duration, format_play_state};
use daw_core::play_state::PlayState;

const MS: u64 = 1_000_000;

#[test]
fn format_duration_of_zero() {
    assert_eq!(format_duration(0), "00:00.000");
}

#[test]
fn format_duration_drops_fractions_of_a_millisecond() {
    assert_eq!(format_duration(999_999), "00:00.000");
    assert_eq!(format_duration(1_000_000), "00:00.001");
    assert_eq!(format_duration(1_999_999), "00:00.001");
}

#[test]
fn format_duration_pads_each_field() {
    assert_eq!(format_duration(7 * MS), "00:00.007");
    assert_eq!(format_duration(42 * MS), "00:00.042");
    assert_eq!(format_duration(1_500 * MS), "00:01.500");
    assert_eq!(format_duration(12_345 * MS), "00:12.345");
}

#[test]
fn format_duration_leading_field_counts_periods_of_36_seconds() {
    assert_eq!(format_duration(35_999 * MS), "00:35.999");
    assert_eq!(format_duration(36_000 * MS), "01:36.000");
    assert_eq!(format_duration(59_999 * MS), "01:59.999");
    assert_eq!(format_duration(60_000 * MS), "01:00.000");
    assert_eq!(format_duration(61_234 * MS), "01:01.234");
    assert_eq!(format_duration(360_000 * MS), "10:00.000");
}

#[test]
fn format_duration_leading_field_grows_beyond_two_digits() {
    assert_eq!(format_duration(3_600_000 * MS), "100:00.000");
    assert_eq!(format_duration(u64::MAX), "512409557:33.709");
}

#[test]
fn duration_since_play_state_counts_only_while_playing() {
    assert_eq!(duration_since_play_state(&PlayState::Stopped, 500), 0);
    assert_eq!(
        duration_since_play_state(&PlayState::Paused { start_time: 100, pause_time: 300 }, 500),
        0
    );
    assert_eq!(duration_since_play_state(&PlayState::Playing { start_time: 100 }, 350), 250);
    assert_eq!(duration_since_play_state(&PlayState::Playing { start_time: 100 }, 100), 0);
}

#[test]
fn duration_since_play_state_is_zero_before_the_start() {
    assert_eq!(duration_since_play_state(&PlayState::Playing { start_time: 100 }, 99), 0);
    assert_eq!(duration_since_play_state(&PlayState::Playing { start_time: u64::MAX }, 0), 0);
}

#[test]
fn format_play_state_shows_the_time_played() {
    let playing = PlayState::Playing { start_time: 2_000 * MS };
    assert_eq!(format_play_state(&playing, 63_234 * MS), "01:01.234");
    assert_eq!(format_play_state(&PlayState::Stopped, 63_234 * MS), "00:00.000");
    assert_eq!(
        format_play_state(&PlayState::Paused { start_time: 0, pause_time: 5_000 * MS }, 63_234 * MS),
        "00:00.000"
    );
}

#[test]
fn play_state_reports_playing() {
    assert!(PlayState::Playing { start_time: 0 }.is_playing());
    assert!(!PlayState::Stopped.is_playing());
    assert!(!PlayState::Paused { start_time: 0, pause_time: 1 }.is_playing());
}

#[test]
fn play_starts_a_stopped_transport_at_now() {
    assert_eq!(PlayState::Stopped.play(700), PlayState::Playing { start_time: 700 });
    assert_eq!(PlayState::Stopped.play(700).position_at(1_000), 300);
}

#[test]
fn play_leaves_a_playing_transport_alone() {
    let playing = PlayState::Playing { start_time: 40 };
    assert_eq!(playing.play(700), playing);
}

#[test]
fn pause_then_resume_keeps_the_position() {
    let playing = PlayState::Playing { start_time: 100 };
    let paused = playing.pause(400);
    assert_eq!(paused, PlayState::Paused { start_time: 100, pause_time: 400 });
    assert_eq!(paused.position_at(400), 300);
    assert_eq!(paused.position_at(9_000), 300);
    let resumed = paused.play(1_000);
    assert_eq!(resumed, PlayState::Playing { start_time: 700 });
    assert_eq!(resumed.position_at(1_000), 300);
    assert_eq!(resumed.position_at(1_250), 550);
}

#[test]
fn pause_before_the_start_stands_at_zero() {
    let paused = PlayState::Playing { start_time: 100 }.pause(50);
    assert_eq!(paused, PlayState::Paused { start_time: 100, pause_time: 100 });
    assert_eq!(paused.position_at(50), 0);
}

#[test]
fn pause_leaves_stopped_and_paused_alone() {
    assert_eq!(PlayState::Stopped.pause(10), PlayState::Stopped);
    let paused = PlayState::Paused { start_time: 1, pause_time: 5 };
    assert_eq!(paused.pause(10), paused);
}

#[test]
fn stop_resets_the_position() {
    let stopped = PlayState::Playing { start_time: 100 }.stop();
    assert_eq!(stopped, PlayState::Stopped);
    assert_eq!(stopped.position_at(5_000), 0);
}
