//! The project: what the interface edits and the render path reads.

use crate::mixer::{Mixer, MixerView};
use crate::play_state::PlayState;
use crate::sampler::{Sampler, SamplerView};
use vstd::prelude::*;
use vstd::string::StringExecFns;

verus! {

/// Tempo of a new project: 140 beats per minute, in thousandths.
pub const DEFAULT_TEMPO: u32 = 140_000;

/// The whole editable state. `tempo` is in thousandths of a beat per
/// minute. Nothing here limits tempo or time signature: the interface
/// offers 40 to 320 beats per minute and 2 to 16 for both parts of the
/// signature.
#[derive(Debug)]
pub struct Project {
    pub name: String,
    pub tempo: u32,
    pub time_signature_numerator: usize,
    pub time_signature_denominator: usize,
    pub play_state: PlayState,
    pub mixer: Mixer,
    pub sampler: Sampler,
}

/// A project as a value.
pub struct ProjectView {
    pub name: Seq<char>,
    pub tempo: u32,
    pub time_signature_numerator: usize,
    pub time_signature_denominator: usize,
    pub play_state: PlayState,
    pub mixer: MixerView,
    pub sampler: SamplerView,
}

impl View for Project {
    type V = ProjectView;

    open spec fn view(&self) -> ProjectView {
        ProjectView {
            name: self.name@,
            tempo: self.tempo,
            time_signature_numerator: self.time_signature_numerator,
            time_signature_denominator: self.time_signature_denominator,
            play_state: self.play_state,
            mixer: self.mixer@,
            sampler: self.sampler@,
        }
    }
}

impl ProjectView {
    /// A stopped project in four-four time with the initial mixer and no
    /// files.
    pub open spec fn initial(name: Seq<char>, tempo: u32) -> ProjectView {
        ProjectView {
            name,
            tempo,
            time_signature_numerator: 4,
            time_signature_denominator: 4,
            play_state: PlayState::Stopped,
            mixer: MixerView::initial(),
            sampler: SamplerView { files: Seq::empty() },
        }
    }
}

impl Project {
    /// A stopped project in four-four time with the initial mixer and no
    /// files.
    pub fn new(name: &str, tempo: u32) -> (project: Project)
        ensures
            project@ == ProjectView::initial(name@, tempo),
    {
        let project = Project {
            name: String::from_str(name),
            tempo,
            time_signature_numerator: 4,
            time_signature_denominator: 4,
            play_state: PlayState::Stopped,
            mixer: Mixer::default(),
            sampler: Sampler::default(),
        };
        assert(project@.sampler.files =~= Seq::empty());
        project
    }
}

impl Default for Project {
    /// An untitled project at the default tempo.
    fn default() -> (project: Project)
        ensures
            project@ == ProjectView::initial("Untitled Project"@, DEFAULT_TEMPO),
    {
        Project::new("Untitled Project", DEFAULT_TEMPO)
    }
}

} // verus!
