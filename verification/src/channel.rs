//! One mixer channel and what it adds to an output buffer.

use crate::levels::{
    left_gain, left_gain_spec, lemma_scaled_zero, right_gain, right_gain_spec, scale_sample,
    scaled_spec, MAX_CONTRIBUTION,
};
use crate::noise::noise_source;
use vstd::prelude::*;
use vstd::string::StringExecFns;

verus! {

/// A mixer channel. `volume` is in thousandths of a percent, `panning` in
/// thousandths from hard left (-1000) to hard right (1000); neither is
/// limited on the way in, the pan law clamps where it is applied.
#[derive(Debug)]
pub struct Channel {
    pub volume: u32,
    pub panning: i32,
    pub muted: bool,
    pub name: String,
}

/// Value of position `i` of the interleaved stereo buffer of `buffer_size`
/// samples that a channel with these settings renders from the mono signal
/// `source`, one source sample for each frame.
///
/// Even positions are left, odd positions right. A muted channel, a
/// position beyond the last whole frame and a frame beyond the end of the
/// source are silent.
pub open spec fn rendered_sample(
    volume: u32,
    panning: i32,
    muted: bool,
    source: Seq<i16>,
    buffer_size: nat,
    i: int,
) -> int {
    let frame = i / 2;
    if muted || i < 0 || frame >= buffer_size / 2 || frame >= source.len() {
        0
    } else if i % 2 == 0 {
        scaled_spec(source[frame] as int, left_gain_spec(panning as int), volume as int)
    } else {
        scaled_spec(source[frame] as int, right_gain_spec(panning as int), volume as int)
    }
}

/// A channel as a value: its settings, and its name as text.
pub struct ChannelView {
    pub volume: u32,
    pub panning: i32,
    pub muted: bool,
    pub name: Seq<char>,
}

impl View for Channel {
    type V = ChannelView;

    open spec fn view(&self) -> ChannelView {
        ChannelView {
            volume: self.volume,
            panning: self.panning,
            muted: self.muted,
            name: self.name@,
        }
    }
}

impl ChannelView {
    /// A channel at zero volume, centred and not muted.
    pub open spec fn fresh(name: Seq<char>) -> ChannelView {
        ChannelView { volume: 0, panning: 0, muted: false, name }
    }

    /// What this channel puts at position `i` of a buffer of `buffer_size`
    /// samples when fed `source`.
    pub open spec fn output_at(self, source: Seq<i16>, buffer_size: nat, i: int) -> int {
        rendered_sample(self.volume, self.panning, self.muted, source, buffer_size, i)
    }
}

/// Whether `buffer` is what `channel` renders from `source` into
/// `buffer_size` samples.
pub open spec fn renders(
    channel: ChannelView,
    source: Seq<i16>,
    buffer_size: nat,
    buffer: Seq<i64>,
) -> bool {
    &&& buffer.len() == buffer_size
    &&& forall|i: int|
        0 <= i < buffer_size ==> #[trigger] buffer[i] == channel.output_at(source, buffer_size, i)
}

impl Channel {
    /// A channel at zero volume, centred and not muted.
    pub fn new(name: &str) -> (channel: Channel)
        ensures
            channel@ == ChannelView::fresh(name@),
    {
        Channel { volume: 0, panning: 0, muted: false, name: String::from_str(name) }
    }

    /// Left and right output of one frame for one source sample.
    pub fn render_frame(&self, sample: i16) -> (frame: (i64, i64))
        ensures
            frame.0 == (if self.muted {
                0
            } else {
                scaled_spec(sample as int, left_gain_spec(self.panning as int), self.volume as int)
            }),
            frame.1 == (if self.muted {
                0
            } else {
                scaled_spec(sample as int, right_gain_spec(self.panning as int), self.volume as int)
            }),
            -MAX_CONTRIBUTION <= frame.0 <= MAX_CONTRIBUTION,
            -MAX_CONTRIBUTION <= frame.1 <= MAX_CONTRIBUTION,
    {
        if self.muted {
            return (0, 0);
        }
        let left = scale_sample(sample, left_gain(self.panning), self.volume);
        let right = scale_sample(sample, right_gain(self.panning), self.volume);
        (left, right)
    }

    /// Renders `buffer_size` interleaved stereo samples from a mono source
    /// signal: each whole frame holds the source sample scaled by the
    /// volume and by the left and the right pan gain. A muted channel
    /// renders silence without reading the source.
    pub fn render_source(&self, source: &Vec<i16>, buffer_size: usize) -> (buffer: Vec<i64>)
        ensures
            buffer.len() == buffer_size,
            forall|i: int|
                0 <= i < buffer_size ==> #[trigger] buffer[i] == self@.output_at(
                    source@,
                    buffer_size as nat,
                    i,
                ),
            forall|i: int|
                0 <= i < buffer_size ==> -MAX_CONTRIBUTION <= #[trigger] buffer[i]
                    <= MAX_CONTRIBUTION,
    {
        let mut buffer: Vec<i64> = Vec::new();
        let mut i: usize = 0;
        while i < buffer_size
            invariant
                i <= buffer_size,
                buffer.len() == i,
                forall|k: int|
                    0 <= k < i ==> #[trigger] buffer[k] == self@.output_at(
                        source@,
                        buffer_size as nat,
                        k,
                    ),
                forall|k: int|
                    0 <= k < i ==> -MAX_CONTRIBUTION <= #[trigger] buffer[k] <= MAX_CONTRIBUTION,
            decreases buffer_size - i,
        {
            let frame = i / 2;
            let value: i64 = if self.muted || frame >= buffer_size / 2 || frame >= source.len() {
                0
            } else {
                let pair = self.render_frame(source[frame]);
                if i % 2 == 0 {
                    pair.0
                } else {
                    pair.1
                }
            };
            buffer.push(value);
            i = i + 1;
        }
        buffer
    }

    /// Renders `buffer_size` interleaved stereo samples of this channel's
    /// placeholder signal, white noise with one draw for each whole frame.
    /// A muted channel renders silence and draws nothing. Whatever is
    /// drawn, the buffer is what `render_source` makes of it.
    pub fn render_buffer(&self, buffer_size: usize) -> (buffer: Vec<i64>)
        ensures
            buffer.len() == buffer_size,
            self.muted ==> forall|i: int| 0 <= i < buffer_size ==> #[trigger] buffer[i] == 0,
            exists|source: Seq<i16>|
                source.len() == buffer_size / 2 && #[trigger] renders(
                    self@,
                    source,
                    buffer_size as nat,
                    buffer@,
                ),
            forall|i: int|
                0 <= i < buffer_size ==> -MAX_CONTRIBUTION <= #[trigger] buffer[i]
                    <= MAX_CONTRIBUTION,
    {
        if self.muted {
            let silent: Vec<i16> = Vec::new();
            let buffer = self.render_source(&silent, buffer_size);
            proof {
                let any = Seq::new((buffer_size / 2) as nat, |k: int| 0i16);
                assert(renders(self@, any, buffer_size as nat, buffer@));
            }
            return buffer;
        }
        let source = noise_source(buffer_size / 2);
        let buffer = self.render_source(&source, buffer_size);
        proof {
            assert(renders(self@, source@, buffer_size as nat, buffer@));
        }
        buffer
    }
}

/// A muted channel is silent at every position, whatever its source and
/// whatever the buffer length.
pub proof fn lemma_muted_is_silent(channel: ChannelView, source: Seq<i16>, buffer_size: nat, i: int)
    requires
        channel.muted,
    ensures
        channel.output_at(source, buffer_size, i) == 0,
{
}

/// A channel at zero volume is silent at every position.
pub proof fn lemma_zero_volume_is_silent(
    channel: ChannelView,
    source: Seq<i16>,
    buffer_size: nat,
    i: int,
)
    requires
        channel.volume == 0,
    ensures
        channel.output_at(source, buffer_size, i) == 0,
{
    let frame = i / 2;
    if !(channel.muted || i < 0 || frame >= buffer_size / 2 || frame >= source.len()) {
        lemma_scaled_zero(source[frame] as int, left_gain_spec(channel.panning as int), 0);
        lemma_scaled_zero(source[frame] as int, right_gain_spec(channel.panning as int), 0);
    }
}

} // verus!
