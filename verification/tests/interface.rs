use daw_core::channel::Channel;
use daw_core::intents::{
    audio_tab_intents, channel_strip_intents, sample_row_intents, toolbar_intents, ChannelEdit,
};
use daw_core::play_state::PlayState;
use daw_core::project::Project;
use daw_core::sampler::AudioFile;
use daw_core::ui_event::UiEvent;
use daw_core::vsts::{
    classify_entry, is_plugin_path, Category, EntryAction, VstBasicInfo, VstSettings,
};
use daw_core::windows::{
    view_button_toggle_window, MixerWindow, SamplerWindow, SettingsTab, SettingsWindow,
    WindowName, Windows,
};

fn shown(events: &[UiEvent]) -> Vec<String> {
    events.iter().map(|event| format!("{:?}", event)).collect()
}

fn strip() -> Channel {
    Channel { volume: 50_000, panning: 100, muted: false, name: String::from("Bass") }
}

fn untouched() -> ChannelEdit {
    ChannelEdit {
        name: String::from("Bass"),
        panning: 100,
        volume: 50_000,
        muted: false,
        selected: false,
        pan_reset: false,
        remove: false,
    }
}

fn plugin(name: &str, category: Category) -> VstBasicInfo {
    VstBasicInfo {
        name: String::from(name),
        vendor: String::from("Vendor"),
        path: format!("C:\\plugins\\{}.dll", name),
        category,
    }
}

#[test]
fn untouched_strip_queues_nothing() {
    assert!(channel_strip_intents(&strip(), 1, untouched()).is_empty());
}

#[test]
fn strip_queues_one_event_for_each_difference_in_order() {
    let edit = ChannelEdit {
        name: String::from("Sub"),
        panning: -200,
        volume: 80_000,
        muted: true,
        selected: true,
        pan_reset: true,
        remove: true,
    };
    let events = channel_strip_intents(&strip(), 2, edit);
    assert_eq!(
        shown(&events),
        vec![
            "ChannelPanning { channel_index: 2, panning: 0 }",
            "RemoveChannel { channel_index: 2 }",
            "ChannelName { channel_index: 2, name: \"Sub\" }",
            "ChannelPanning { channel_index: 2, panning: -200 }",
            "ChannelVolume { channel_index: 2, volume: 80000 }",
            "ChannelMuted { channel_index: 2, muted: true }",
            "ChannelSelect { channel_index: Some(2) }",
        ]
    );
}

#[test]
fn strip_never_removes_the_master_channel() {
    let edit = ChannelEdit { remove: true, ..untouched() };
    assert!(channel_strip_intents(&strip(), 0, edit).is_empty());
    let edit = ChannelEdit { remove: true, ..untouched() };
    assert_eq!(
        shown(&channel_strip_intents(&strip(), 1, edit)),
        vec!["RemoveChannel { channel_index: 1 }"]
    );
}

#[test]
fn strip_queues_single_changes() {
    let edit = ChannelEdit { volume: 50_001, ..untouched() };
    assert_eq!(
        shown(&channel_strip_intents(&strip(), 3, edit)),
        vec!["ChannelVolume { channel_index: 3, volume: 50001 }"]
    );
    let edit = ChannelEdit { name: String::from("bass"), ..untouched() };
    assert_eq!(
        shown(&channel_strip_intents(&strip(), 3, edit)),
        vec!["ChannelName { channel_index: 3, name: \"bass\" }"]
    );
    let edit = ChannelEdit { pan_reset: true, ..untouched() };
    assert_eq!(
        shown(&channel_strip_intents(&strip(), 3, edit)),
        vec!["ChannelPanning { channel_index: 3, panning: 0 }"]
    );
}

#[test]
fn toolbar_queues_what_differs() {
    let project = Project::default();
    assert!(toolbar_intents(&project, 140_000, 4, 4).is_empty());
    assert_eq!(
        shown(&toolbar_intents(&project, 120_500, 3, 8)),
        vec![
            "ProjectTempo(120500)",
            "ProjectTimeSignatureNumerator(3)",
            "ProjectTimeSignatureDenominator(8)",
        ]
    );
    assert_eq!(
        shown(&toolbar_intents(&project, 140_000, 4, 16)),
        vec!["ProjectTimeSignatureDenominator(16)"]
    );
}

#[test]
fn sample_row_untouched_queues_nothing() {
    let file = AudioFile::new(String::from("a.wav"), vec![]);
    assert!(sample_row_intents(&file, 0, 0, 3, false, false, 50).is_empty());
}

#[test]
fn sample_row_play_button_toggles() {
    let mut file = AudioFile::new(String::from("a.wav"), vec![]);
    assert_eq!(
        shown(&sample_row_intents(&file, 4, 0, 3, true, false, 50)),
        vec!["PlayPauseSample { sample_index: 4, play_state: Playing { start_time: 50 } }"]
    );
    file.play_state = PlayState::Playing { start_time: 10 };
    assert_eq!(
        shown(&sample_row_intents(&file, 4, 0, 3, true, false, 50)),
        vec!["PlayPauseSample { sample_index: 4, play_state: Stopped }"]
    );
    file.play_state = PlayState::Paused { start_time: 10, pause_time: 20 };
    assert_eq!(
        shown(&sample_row_intents(&file, 4, 0, 3, true, false, 50)),
        vec!["PlayPauseSample { sample_index: 4, play_state: Playing { start_time: 50 } }"]
    );
}

#[test]
fn sample_row_holds_the_routing_to_the_last_channel() {
    let file = AudioFile::new(String::from("a.wav"), vec![]);
    assert_eq!(
        shown(&sample_row_intents(&file, 1, 2, 3, false, false, 0)),
        vec!["SampleChannel { sample_index: 1, channel_index: 2 }"]
    );
    assert_eq!(
        shown(&sample_row_intents(&file, 1, 7, 3, false, false, 0)),
        vec!["SampleChannel { sample_index: 1, channel_index: 2 }"]
    );
    assert!(sample_row_intents(&file, 1, 7, 0, false, false, 0).is_empty());
    assert!(sample_row_intents(&file, 1, 7, 1, false, false, 0).is_empty());
}

#[test]
fn sample_row_queues_removal_first() {
    let file = AudioFile::new(String::from("a.wav"), vec![]);
    assert_eq!(
        shown(&sample_row_intents(&file, 1, 1, 3, true, true, 9)),
        vec![
            "RemoveSample { sample_index: 1 }",
            "SampleChannel { sample_index: 1, channel_index: 1 }",
            "PlayPauseSample { sample_index: 1, play_state: Playing { start_time: 9 } }",
        ]
    );
}

#[test]
fn audio_tab_queues_rate_then_output_then_input() {
    assert!(audio_tab_intents(0, 48_000, 1, 0, 48_000, 1).is_empty());
    assert_eq!(
        shown(&audio_tab_intents(0, 48_000, 1, 1, 44_100, 0)),
        vec!["OutputDeviceSampleRate(44100)", "OutputDevice(1)", "InputDevice(0)"]
    );
    assert_eq!(shown(&audio_tab_intents(0, 48_000, 1, 2, 48_000, 1)), vec!["OutputDevice(2)"]);
    assert_eq!(
        shown(&audio_tab_intents(0, 48_000, 1, 0, 96_000, 1)),
        vec!["OutputDeviceSampleRate(96000)"]
    );
    assert_eq!(shown(&audio_tab_intents(0, 48_000, 1, 0, 48_000, 3)), vec!["InputDevice(3)"]);
}

#[test]
fn plugin_paths_end_in_dll() {
    assert!(is_plugin_path("C:\\Program Files\\VSTPlugins\\reverb.dll"));
    assert!(is_plugin_path(".dll"));
    assert!(is_plugin_path("größe.dll"));
    assert!(!is_plugin_path("reverb.DLL"));
    assert!(!is_plugin_path("reverb.dll.bak"));
    assert!(!is_plugin_path("reverbdll"));
    assert!(!is_plugin_path("dll"));
    assert!(!is_plugin_path(""));
    assert!(!is_plugin_path("reverb.vst3"));
}

#[test]
fn scan_classifies_directory_entries() {
    assert_eq!(classify_entry(false, false, "a.dll"), EntryAction::Skip);
    assert_eq!(classify_entry(false, true, "a.dll"), EntryAction::Skip);
    assert_eq!(classify_entry(true, true, "plugins"), EntryAction::Descend);
    assert_eq!(classify_entry(true, true, "plugins.dll"), EntryAction::Descend);
    assert_eq!(classify_entry(true, false, "a.dll"), EntryAction::Probe);
    assert_eq!(classify_entry(true, false, "a.txt"), EntryAction::Skip);
}

#[test]
fn reload_keeps_the_plugins_that_loaded() {
    let mut settings = VstSettings::default();
    assert!(settings.vst_list.is_empty());
    settings.reload_vsts(vec![
        None,
        Some(plugin("reverb", Category::Effect)),
        None,
        None,
        Some(plugin("synth", Category::Synth)),
        Some(plugin("delay", Category::Effect)),
        None,
    ]);
    let names: Vec<&str> = settings.vst_list.iter().map(|info| info.name.as_str()).collect();
    assert_eq!(names, vec!["reverb", "synth", "delay"]);
    assert_eq!(settings.vst_list[0].vendor, "Vendor");
    assert_eq!(settings.vst_list[0].path, "C:\\plugins\\reverb.dll");
    assert_eq!(settings.vst_list[1].category, Category::Synth);
}

#[test]
fn reload_replaces_the_earlier_list() {
    let mut settings = VstSettings::default();
    settings.reload_vsts(vec![Some(plugin("old", Category::Effect))]);
    settings.reload_vsts(vec![None, Some(plugin("new", Category::Unknown))]);
    assert_eq!(settings.vst_list.len(), 1);
    assert_eq!(settings.vst_list[0].name, "new");
    settings.reload_vsts(vec![None, None]);
    assert!(settings.vst_list.is_empty());
    settings.reload_vsts(Vec::new());
    assert!(settings.vst_list.is_empty());
}

#[test]
fn effects_lists_the_positions_of_effect_plugins() {
    let mut settings = VstSettings::default();
    assert!(settings.effects().is_empty());
    settings.reload_vsts(vec![
        Some(plugin("synth", Category::Synth)),
        Some(plugin("reverb", Category::Effect)),
        Some(plugin("meter", Category::Analysis)),
        Some(plugin("delay", Category::Effect)),
        Some(plugin("room", Category::RoomFx)),
    ]);
    assert_eq!(settings.effects(), vec![1, 3]);
}

#[test]
fn window_names_are_their_titles() {
    assert_eq!(WindowName::Mixer.name(), "Mixer");
    assert_eq!(WindowName::Sampler.name(), "Sampler");
    assert_eq!(WindowName::Settings.name(), "Settings");
    assert_eq!(WindowName::all(), [WindowName::Mixer, WindowName::Sampler, WindowName::Settings]);
}

#[test]
fn settings_tab_names_are_their_labels() {
    assert_eq!(SettingsTab::Audio.name(), "Audio");
    assert_eq!(SettingsTab::VST.name(), "VSTs");
    assert_eq!(SettingsTab::Misc.name(), "Misc");
}

#[test]
fn settings_window_opens_on_the_plugin_tab() {
    let window = SettingsWindow::default();
    assert_eq!(window.selected(), SettingsTab::VST);
    assert_eq!(window.selected_position(), 1);
    assert_eq!(window.tabs(), [SettingsTab::Audio, SettingsTab::VST, SettingsTab::Misc]);
}

#[test]
fn settings_window_selects_tabs_and_ignores_other_positions() {
    let mut window = SettingsWindow::default();
    window.select(0);
    assert_eq!(window.selected(), SettingsTab::Audio);
    window.select(2);
    assert_eq!(window.selected(), SettingsTab::Misc);
    window.select(3);
    assert_eq!(window.selected(), SettingsTab::Misc);
    window.select(usize::MAX);
    assert_eq!(window.selected_position(), 2);
}

#[test]
fn sampler_window_has_a_default() {
    assert_eq!(SamplerWindow::default(), SamplerWindow {});
}

#[test]
fn mixer_window_dialog_needs_a_selected_channel() {
    let mut window = MixerWindow::default();
    assert!(!window.effect_add_show_window);
    assert_eq!(window.effect_show_params, None);
    window.sync(None, true);
    assert!(!window.effect_add_show_window);
    window.sync(Some(1), false);
    assert!(!window.effect_add_show_window);
    window.sync(Some(1), true);
    assert!(window.effect_add_show_window);
    window.sync(Some(2), false);
    assert!(window.effect_add_show_window);
    window.sync(None, false);
    assert!(!window.effect_add_show_window);
}

#[test]
fn all_windows_start_open() {
    for windows in [Windows::new(), Windows::default()] {
        for name in WindowName::all() {
            assert!(windows.is_open(name));
        }
    }
}

#[test]
fn set_open_changes_one_window() {
    let mut windows = Windows::new();
    windows.set_open(WindowName::Sampler, false);
    assert!(windows.is_open(WindowName::Mixer));
    assert!(!windows.is_open(WindowName::Sampler));
    assert!(windows.is_open(WindowName::Settings));
    windows.set_open(WindowName::Sampler, false);
    assert!(!windows.is_open(WindowName::Sampler));
    windows.set_open(WindowName::Sampler, true);
    assert_eq!(windows, Windows::new());
}

#[test]
fn toggle_opens_and_closes() {
    let mut windows = Windows::new();
    view_button_toggle_window(&mut windows, WindowName::Mixer);
    assert!(!windows.is_open(WindowName::Mixer));
    assert!(windows.is_open(WindowName::Sampler));
    assert!(windows.is_open(WindowName::Settings));
    view_button_toggle_window(&mut windows, WindowName::Mixer);
    assert_eq!(windows, Windows::new());
}

#[test]
fn shortcut_turns_the_window_round() {
    let mut windows = Windows::new();
    windows.settle(WindowName::Settings, true, false);
    assert!(windows.is_open(WindowName::Settings));
    windows.settle(WindowName::Settings, true, true);
    assert!(!windows.is_open(WindowName::Settings));
    windows.settle(WindowName::Settings, false, true);
    assert!(windows.is_open(WindowName::Settings));
    windows.settle(WindowName::Settings, false, false);
    assert!(!windows.is_open(WindowName::Settings));
    assert!(windows.is_open(WindowName::Mixer));
}
