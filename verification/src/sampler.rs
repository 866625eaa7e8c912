//! The sampler: audio files held in memory, each routed to a mixer channel.

use crate::play_state::PlayState;
use vstd::prelude::*;

verus! {

/// An audio file read whole into memory, the mixer channel it plays into
/// and its own transport state.
#[derive(Debug)]
pub struct AudioFile {
    pub path: String,
    pub data: Vec<u8>,
    pub channel: usize,
    pub play_state: PlayState,
}

/// An audio file as a value.
pub struct AudioFileView {
    pub path: Seq<char>,
    pub data: Seq<u8>,
    pub channel: usize,
    pub play_state: PlayState,
}

impl View for AudioFile {
    type V = AudioFileView;

    open spec fn view(&self) -> AudioFileView {
        AudioFileView {
            path: self.path@,
            data: self.data@,
            channel: self.channel,
            play_state: self.play_state,
        }
    }
}

impl AudioFile {
    /// A file whose bytes have been read already: routed to channel 0 and
    /// stopped.
    pub fn new(path: String, data: Vec<u8>) -> (file: AudioFile)
        ensures
            file@ == (AudioFileView {
                path: path@,
                data: data@,
                channel: 0,
                play_state: PlayState::Stopped,
            }),
    {
        AudioFile { path, data, channel: 0, play_state: PlayState::Stopped }
    }
}

/// The files of the project, in the order in which they were added.
#[derive(Debug)]
pub struct Sampler {
    pub files: Vec<AudioFile>,
}

/// A sampler as a value.
pub struct SamplerView {
    pub files: Seq<AudioFileView>,
}

/// The values of a list of files.
pub open spec fn file_views(files: Seq<AudioFile>) -> Seq<AudioFileView> {
    Seq::new(files.len(), |i: int| files[i]@)
}

impl View for Sampler {
    type V = SamplerView;

    open spec fn view(&self) -> SamplerView {
        SamplerView { files: file_views(self.files@) }
    }
}

impl Default for Sampler {
    /// A sampler without files.
    fn default() -> (sampler: Sampler)
        ensures
            sampler@.files.len() == 0,
    {
        Sampler { files: Vec::new() }
    }
}

impl Sampler {
    /// Appends files that were picked and read, in the order given.
    pub fn add_samples(&mut self, files: Vec<AudioFile>)
        ensures
            final(self)@.files == old(self)@.files + file_views(files@),
    {
        let mut files = files;
        let ghost added = files@;
        self.files.append(&mut files);
        assert(self@.files =~= old(self)@.files + file_views(added));
    }
}

} // verus!
