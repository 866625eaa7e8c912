//! Plugin discovery: what a scan of the plugin directories keeps.
//!
//! Walking directories and loading plugins is the caller's work; what is
//! decided here is which directory entries are looked at and which load
//! results are kept.

use vstd::prelude::*;
use vstd::string::StrSliceExecFns;

verus! {

/// The kind of a plugin, as the plugin states it.
#[derive(Clone, Copy, PartialEq, Eq, Structural, Debug)]
pub enum Category {
    Unknown,
    Effect,
    Synth,
    Analysis,
    Mastering,
    Spacializer,
    RoomFx,
    SurroundFx,
    Restoration,
    OfflineProcess,
    Shell,
    Generator,
}

/// What is kept of a plugin that loaded.
#[derive(Debug)]
pub struct VstBasicInfo {
    pub name: String,
    pub vendor: String,
    pub path: String,
    pub category: Category,
}

/// A plugin description as a value.
pub struct VstBasicInfoView {
    pub name: Seq<char>,
    pub vendor: Seq<char>,
    pub path: Seq<char>,
    pub category: Category,
}

impl View for VstBasicInfo {
    type V = VstBasicInfoView;

    open spec fn view(&self) -> VstBasicInfoView {
        VstBasicInfoView {
            name: self.name@,
            vendor: self.vendor@,
            path: self.path@,
            category: self.category,
        }
    }
}

/// The plugins found by the last scan.
#[derive(Debug)]
pub struct VstSettings {
    pub vst_list: Vec<VstBasicInfo>,
}

/// The values of a list of plugins.
pub open spec fn plugin_views(plugins: Seq<VstBasicInfo>) -> Seq<VstBasicInfoView> {
    Seq::new(plugins.len(), |i: int| plugins[i]@)
}

/// The plugins that loaded among the first `count` load results, in
/// order.
pub open spec fn loaded(probes: Seq<Option<VstBasicInfo>>, count: nat) -> Seq<VstBasicInfoView>
    decreases count,
{
    if count == 0 || count > probes.len() {
        Seq::empty()
    } else {
        match probes[count - 1] {
            Some(info) => loaded(probes, (count - 1) as nat).push(info@),
            None => loaded(probes, (count - 1) as nat),
        }
    }
}

/// Positions of the effect plugins among the first `count` plugins,
/// ascending.
pub open spec fn effect_positions(plugins: Seq<VstBasicInfoView>, count: nat) -> Seq<usize>
    decreases count,
{
    if count == 0 || count > plugins.len() {
        Seq::empty()
    } else if plugins[count - 1].category == Category::Effect {
        effect_positions(plugins, (count - 1) as nat).push((count - 1) as usize)
    } else {
        effect_positions(plugins, (count - 1) as nat)
    }
}

/// Whether a path ends in `.dll`, in lower case.
pub open spec fn plugin_path(path: Seq<char>) -> bool {
    path.len() >= 4 && path.subrange(path.len() - 4, path.len() as int) == seq!['.', 'd', 'l', 'l']
}

/// What a scan does with one directory entry.
#[derive(Clone, Copy, PartialEq, Eq, Structural, Debug)]
pub enum EntryAction {
    /// Pass over it.
    Skip,
    /// Scan it as a directory.
    Descend,
    /// Try to load it as a plugin.
    Probe,
}

/// Whether a file is tried as a plugin: its path ends in `.dll`.
pub fn is_plugin_path(path: &str) -> (plugin: bool)
    ensures
        plugin == plugin_path(path@),
{
    let len = path.unicode_len();
    if len < 4 {
        return false;
    }
    let plugin = path.get_char(len - 4) == '.' && path.get_char(len - 3) == 'd' && path.get_char(
        len - 2,
    ) == 'l' && path.get_char(len - 1) == 'l';
    proof {
        let tail = path@.subrange(path@.len() - 4, path@.len() as int);
        assert(tail[0] == path@[len - 4]);
        assert(tail[1] == path@[len - 3]);
        assert(tail[2] == path@[len - 2]);
        assert(tail[3] == path@[len - 1]);
        if plugin {
            assert(tail =~= seq!['.', 'd', 'l', 'l']);
        }
    }
    plugin
}

/// Decides what a scan does with one directory entry: one that could not
/// be read is passed over, a directory is scanned in turn, and a file is
/// tried as a plugin exactly when its path ends in `.dll`.
pub fn classify_entry(readable: bool, is_dir: bool, path: &str) -> (action: EntryAction)
    ensures
        action == (if !readable {
            EntryAction::Skip
        } else if is_dir {
            EntryAction::Descend
        } else if plugin_path(path@) {
            EntryAction::Probe
        } else {
            EntryAction::Skip
        }),
{
    if !readable {
        EntryAction::Skip
    } else if is_dir {
        EntryAction::Descend
    } else if is_plugin_path(path) {
        EntryAction::Probe
    } else {
        EntryAction::Skip
    }
}

impl Default for VstSettings {
    /// No plugins.
    fn default() -> (settings: VstSettings)
        ensures
            settings.vst_list@.len() == 0,
    {
        VstSettings { vst_list: Vec::new() }
    }
}

impl VstSettings {
    /// Replaces the list by the outcome of a scan: `probes` holds one
    /// result for each file that was tried, in scan order, `None` where
    /// the file did not load. Every plugin that loaded is kept, in order;
    /// one that failed costs only itself.
    pub fn reload_vsts(&mut self, probes: Vec<Option<VstBasicInfo>>)
        ensures
            plugin_views(final(self).vst_list@) == loaded(probes@, probes@.len()),
    {
        let mut probes = probes;
        let ghost all = probes@;
        let mut list: Vec<VstBasicInfo> = Vec::new();
        let mut i: usize = 0;
        while i < probes.len()
            invariant
                i <= probes.len(),
                probes.len() == all.len(),
                forall|k: int| i <= k < all.len() ==> probes[k] == all[k],
                plugin_views(list@) == loaded(all, i as nat),
            decreases probes.len() - i,
        {
            let taken = probes[i].take();
            match taken {
                Some(info) => {
                    list.push(info);
                    assert(plugin_views(list@) =~= loaded(all, i as nat).push(info@));
                },
                None => {},
            }
            i = i + 1;
        }
        self.vst_list = list;
    }

    /// Positions in the list of the plugins that are effects, ascending:
    /// what the dialog that adds an effect offers.
    pub fn effects(&self) -> (positions: Vec<usize>)
        ensures
            positions@ == effect_positions(plugin_views(self.vst_list@), self.vst_list@.len()),
    {
        let ghost views = plugin_views(self.vst_list@);
        let mut positions: Vec<usize> = Vec::new();
        let mut i: usize = 0;
        while i < self.vst_list.len()
            invariant
                i <= self.vst_list.len(),
                views == plugin_views(self.vst_list@),
                positions@ == effect_positions(views, i as nat),
            decreases self.vst_list.len() - i,
        {
            match self.vst_list[i].category {
                Category::Effect => {
                    positions.push(i);
                },
                _ => {},
            }
            i = i + 1;
        }
        positions
    }
}

} // verus!
