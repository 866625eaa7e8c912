//! The windows of the interface: which exist, which are open, and what
//! each remembers between frames.

use vstd::prelude::*;

verus! {

/// The windows that the application has.
#[derive(Clone, Copy, PartialEq, Eq, PartialOrd, Ord, Hash, Structural, Debug)]
pub enum WindowName {
    Mixer,
    Sampler,
    Settings,
}

impl WindowName {
    /// The title of the window.
    pub open spec fn title(self) -> Seq<char> {
        match self {
            WindowName::Mixer => "Mixer"@,
            WindowName::Sampler => "Sampler"@,
            WindowName::Settings => "Settings"@,
        }
    }

    /// The title of the window.
    pub fn name(&self) -> (text: &'static str)
        ensures
            text@ == self.title(),
    {
        match self {
            WindowName::Mixer => "Mixer",
            WindowName::Sampler => "Sampler",
            WindowName::Settings => "Settings",
        }
    }

    /// All windows, in the order in which menus list them.
    pub fn all() -> (names: [WindowName; 3])
        ensures
            names@ == seq![WindowName::Mixer, WindowName::Sampler, WindowName::Settings],
    {
        let names = [WindowName::Mixer, WindowName::Sampler, WindowName::Settings];
        assert(names@ =~= seq![WindowName::Mixer, WindowName::Sampler, WindowName::Settings]);
        names
    }
}

/// The tabs of the settings window.
#[derive(Clone, Copy, PartialEq, Eq, PartialOrd, Ord, Hash, Structural, Debug)]
pub enum SettingsTab {
    Audio,
    VST,
    Misc,
}

impl SettingsTab {
    /// The label of the tab.
    pub open spec fn label(self) -> Seq<char> {
        match self {
            SettingsTab::Audio => "Audio"@,
            SettingsTab::VST => "VSTs"@,
            SettingsTab::Misc => "Misc"@,
        }
    }

    /// The label of the tab.
    pub fn name(&self) -> (text: &'static str)
        ensures
            text@ == self.label(),
    {
        match self {
            SettingsTab::Audio => "Audio",
            SettingsTab::VST => "VSTs",
            SettingsTab::Misc => "Misc",
        }
    }
}

/// The tabs of the settings window, left to right.
pub open spec fn settings_tabs() -> Seq<SettingsTab> {
    seq![SettingsTab::Audio, SettingsTab::VST, SettingsTab::Misc]
}

/// The settings window: its tabs and which of them is shown. The shown
/// tab is always one of the three.
#[derive(Debug)]
pub struct SettingsWindow {
    selected_tab: usize,
    tabs: [SettingsTab; 3],
}

impl SettingsWindow {
    #[verifier::type_invariant]
    spec fn well_formed(self) -> bool {
        self.selected_tab < 3 && self.tabs@ == settings_tabs()
    }

    /// Position of the tab that is shown.
    pub closed spec fn selected_index(self) -> int {
        self.selected_tab as int
    }

    /// The tab that is shown.
    pub open spec fn selected_tab(self) -> SettingsTab {
        settings_tabs()[self.selected_index()]
    }

    /// The tab that is shown.
    pub fn selected(&self) -> (tab: SettingsTab)
        ensures
            tab == self.selected_tab(),
            0 <= self.selected_index() < 3,
    {
        proof {
            use_type_invariant(self);
        }
        self.tabs[self.selected_tab]
    }

    /// Position of the tab that is shown.
    pub fn selected_position(&self) -> (index: usize)
        ensures
            index == self.selected_index(),
            index < 3,
    {
        proof {
            use_type_invariant(self);
        }
        self.selected_tab
    }

    /// The tabs, left to right.
    pub fn tabs(&self) -> (tabs: [SettingsTab; 3])
        ensures
            tabs@ == settings_tabs(),
    {
        proof {
            use_type_invariant(self);
        }
        self.tabs
    }

    /// Shows the tab at `index`; a position that is no tab is ignored.
    pub fn select(&mut self, index: usize)
        ensures
            final(self).selected_index() == (if index < 3 {
                index as int
            } else {
                old(self).selected_index()
            }),
    {
        if index < 3 {
            proof {
                use_type_invariant(&*self);
            }
            self.selected_tab = index;
        }
    }
}

impl Default for SettingsWindow {
    /// The settings window as it first opens: on its second tab.
    fn default() -> (window: SettingsWindow)
        ensures
            window.selected_index() == 1,
            window.selected_tab() == SettingsTab::VST,
    {
        let tabs = [SettingsTab::Audio, SettingsTab::VST, SettingsTab::Misc];
        assert(tabs@ =~= settings_tabs());
        SettingsWindow { tabs, selected_tab: 1 }
    }
}

/// The sampler window. It remembers nothing between frames.
#[derive(Clone, Copy, PartialEq, Eq, Structural, Debug)]
pub struct SamplerWindow {}

impl Default for SamplerWindow {
    fn default() -> (window: SamplerWindow) {
        SamplerWindow {  }
    }
}

/// The mixer window: whether the dialog that adds an effect is up, and
/// which effect shows its parameters.
#[derive(Clone, Copy, PartialEq, Eq, Structural, Debug)]
pub struct MixerWindow {
    pub effect_add_show_window: bool,
    pub effect_show_params: Option<usize>,
}

impl Default for MixerWindow {
    /// No dialog up, no parameters shown.
    fn default() -> (window: MixerWindow)
        ensures
            !window.effect_add_show_window,
            window.effect_show_params is None,
    {
        MixerWindow { effect_add_show_window: false, effect_show_params: None }
    }
}

impl MixerWindow {
    /// Brings the dialog in line with the mixer for one frame: without a
    /// selected channel the dialog is taken down; with one, it comes up
    /// when adding an effect was asked for and stays as it was otherwise.
    pub fn sync(&mut self, selected_channel: Option<usize>, add_effect_clicked: bool)
        ensures
            final(self).effect_show_params == old(self).effect_show_params,
            final(self).effect_add_show_window == (selected_channel is Some && (old(
                self,
            ).effect_add_show_window || add_effect_clicked)),
    {
        match selected_channel {
            None => {
                self.effect_add_show_window = false;
            },
            Some(_) => {
                if add_effect_clicked {
                    self.effect_add_show_window = true;
                }
            },
        }
    }
}

/// Which windows are open: a set of window names, held as one flag for
/// each name, so that no name can be in it twice.
#[derive(Clone, Copy, PartialEq, Eq, Structural, Debug)]
pub struct Windows {
    pub mixer: bool,
    pub sampler: bool,
    pub settings: bool,
}

impl Windows {
    /// Whether the window is open.
    pub open spec fn shows(self, name: WindowName) -> bool {
        match name {
            WindowName::Mixer => self.mixer,
            WindowName::Sampler => self.sampler,
            WindowName::Settings => self.settings,
        }
    }

    /// The set of open windows.
    pub open spec fn open(self) -> Set<WindowName> {
        Set::new(|name: WindowName| self.shows(name))
    }

    /// All windows open.
    pub fn new() -> (windows: Windows)
        ensures
            forall|name: WindowName| windows.shows(name),
    {
        Windows { mixer: true, sampler: true, settings: true }
    }

    /// Whether the window is open.
    pub fn is_open(&self, name: WindowName) -> (open: bool)
        ensures
            open == self.shows(name),
    {
        match name {
            WindowName::Mixer => self.mixer,
            WindowName::Sampler => self.sampler,
            WindowName::Settings => self.settings,
        }
    }

    /// Opens or closes one window; the others stay as they are.
    pub fn set_open(&mut self, key: WindowName, is_open: bool)
        ensures
            final(self).shows(key) == is_open,
            forall|other: WindowName| other != key ==> final(self).shows(other) == old(self).shows(other),
            final(self).open() == (if is_open {
                old(self).open().insert(key)
            } else {
                old(self).open().remove(key)
            }),
    {
        match key {
            WindowName::Mixer => {
                self.mixer = is_open;
            },
            WindowName::Sampler => {
                self.sampler = is_open;
            },
            WindowName::Settings => {
                self.settings = is_open;
            },
        }
        assert(self.open() =~= (if is_open {
            old(self).open().insert(key)
        } else {
            old(self).open().remove(key)
        }));
    }

    /// Settles one window after a frame: it is open if it was left open,
    /// unless its shortcut was pressed, which turns that round.
    pub fn settle(&mut self, key: WindowName, still_open: bool, shortcut_pressed: bool)
        ensures
            final(self).shows(key) == (still_open != shortcut_pressed),
            forall|other: WindowName| other != key ==> final(self).shows(other) == old(self).shows(other),
    {
        self.set_open(key, still_open);
        if shortcut_pressed {
            self.set_open(key, !still_open);
        }
    }
}

impl Default for Windows {
    /// All windows open.
    fn default() -> (windows: Windows)
        ensures
            forall|name: WindowName| windows.shows(name),
    {
        Windows::new()
    }
}

/// Opens the window if it is closed and closes it if it is open.
pub fn view_button_toggle_window(windows: &mut Windows, window_name: WindowName)
    ensures
        final(windows).shows(window_name) == !old(windows).shows(window_name),
        forall|other: WindowName|
            other != window_name ==> final(windows).shows(other) == old(windows).shows(other),
{
    let window_open = windows.is_open(window_name);
    windows.set_open(window_name, !window_open);
}

} // verus!
