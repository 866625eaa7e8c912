//! The mixer: an ordered list of channels and the sum of what they render.

use crate::channel::{Channel, ChannelView};
use crate::format::{append_decimal, decimal};
use crate::levels::{left_gain_spec, lemma_scaled_bound, right_gain_spec, MAX_CONTRIBUTION};
use crate::noise::random_sample;
use vstd::prelude::*;
use vstd::string::StringExecFns;

verus! {

/// The channels in order and the one picked in the interface, if any.
/// Position 0 is the master channel by convention; nothing here relies on
/// it being present.
#[derive(Debug)]
pub struct Mixer {
    pub channels: Vec<Channel>,
    pub selected_channel: Option<usize>,
}

/// A mixer as a value.
pub struct MixerView {
    pub channels: Seq<ChannelView>,
    pub selected_channel: Option<usize>,
}

/// The values of a list of channels.
pub open spec fn channel_views(channels: Seq<Channel>) -> Seq<ChannelView> {
    Seq::new(channels.len(), |c: int| channels[c]@)
}

impl View for Mixer {
    type V = MixerView;

    open spec fn view(&self) -> MixerView {
        MixerView {
            channels: channel_views(self.channels@),
            selected_channel: self.selected_channel,
        }
    }
}

/// The source signal of channel `c`: silence where none is given.
pub open spec fn source_of(sources: Seq<Seq<i16>>, c: int) -> Seq<i16> {
    if 0 <= c < sources.len() {
        sources[c]
    } else {
        Seq::empty()
    }
}

/// The views of a list of source signals.
pub open spec fn signals(sources: Seq<Vec<i16>>) -> Seq<Seq<i16>> {
    Seq::new(sources.len(), |c: int| sources[c]@)
}

/// Sum at position `i` of what the first `count` channels render.
pub open spec fn mix_prefix(
    channels: Seq<ChannelView>,
    sources: Seq<Seq<i16>>,
    count: nat,
    buffer_size: nat,
    i: int,
) -> int
    decreases count,
{
    if count == 0 || count > channels.len() {
        0
    } else {
        mix_prefix(channels, sources, (count - 1) as nat, buffer_size, i) + channels[count
            - 1].output_at(source_of(sources, count - 1), buffer_size, i)
    }
}

/// Value of position `i` of the master mix: the sum of what all the
/// channels render there, neither limited nor clipped.
pub open spec fn mixed_sample(
    channels: Seq<ChannelView>,
    sources: Seq<Seq<i16>>,
    buffer_size: nat,
    i: int,
) -> int {
    mix_prefix(channels, sources, channels.len(), buffer_size, i)
}

/// Whether `data` is the master mix of `channels` fed `sources`.
pub open spec fn is_mix(channels: Seq<ChannelView>, sources: Seq<Seq<i16>>, data: Seq<i128>) -> bool {
    forall|i: int|
        0 <= i < data.len() ==> #[trigger] data[i] == mixed_sample(
            channels,
            sources,
            data.len(),
            i,
        )
}

/// The name that the next added channel gets in a mixer of `len` channels.
pub open spec fn next_channel_name(len: nat) -> Seq<char> {
    seq!['C', 'h', 'a', 'n', 'n', 'e', 'l', ' '] + decimal(len + 1)
}

/// The sum of the first `count` channels stays within `count` times the
/// largest contribution of one channel.
pub proof fn lemma_mix_prefix_bound(
    channels: Seq<ChannelView>,
    sources: Seq<Seq<i16>>,
    count: nat,
    buffer_size: nat,
    i: int,
)
    ensures
        -(count * MAX_CONTRIBUTION) <= mix_prefix(channels, sources, count, buffer_size, i)
            <= count * MAX_CONTRIBUTION,
    decreases count,
{
    if count == 0 || count > channels.len() {
        assert(0 <= count * MAX_CONTRIBUTION) by (nonlinear_arith)
            requires
                count >= 0,
        ;
    } else {
        lemma_mix_prefix_bound(channels, sources, (count - 1) as nat, buffer_size, i);
        let channel = channels[count - 1];
        let source = source_of(sources, count - 1);
        let frame = i / 2;
        if !(channel.muted || i < 0 || frame >= buffer_size / 2 || frame >= source.len()) {
            lemma_scaled_bound(
                source[frame] as int,
                left_gain_spec(channel.panning as int),
                channel.volume as int,
            );
            lemma_scaled_bound(
                source[frame] as int,
                right_gain_spec(channel.panning as int),
                channel.volume as int,
            );
        }
        assert(count * MAX_CONTRIBUTION == (count - 1) * MAX_CONTRIBUTION + MAX_CONTRIBUTION)
            by (nonlinear_arith);
    }
}

/// Below position `count` the sum does not look at later channels.
proof fn lemma_mix_prefix_agrees(
    a: Seq<ChannelView>,
    sa: Seq<Seq<i16>>,
    b: Seq<ChannelView>,
    sb: Seq<Seq<i16>>,
    count: nat,
    buffer_size: nat,
    i: int,
)
    requires
        count <= a.len(),
        count <= b.len(),
        forall|k: int| 0 <= k < count ==> a[k] == b[k],
        forall|k: int| 0 <= k < count ==> source_of(sa, k) == source_of(sb, k),
    ensures
        mix_prefix(a, sa, count, buffer_size, i) == mix_prefix(b, sb, count, buffer_size, i),
    decreases count,
{
    if count > 0 {
        lemma_mix_prefix_agrees(a, sa, b, sb, (count - 1) as nat, buffer_size, i);
    }
}

/// The source signals left when channel `c` leaves.
pub open spec fn sources_without(sources: Seq<Seq<i16>>, c: int) -> Seq<Seq<i16>> {
    if 0 <= c < sources.len() {
        sources.remove(c)
    } else {
        sources
    }
}

proof fn lemma_mix_prefix_without_muted(
    channels: Seq<ChannelView>,
    sources: Seq<Seq<i16>>,
    c: int,
    count: nat,
    buffer_size: nat,
    i: int,
)
    requires
        0 <= c < channels.len(),
        channels[c].muted,
        c < count <= channels.len(),
    ensures
        mix_prefix(channels, sources, count, buffer_size, i) == mix_prefix(
            channels.remove(c),
            sources_without(sources, c),
            (count - 1) as nat,
            buffer_size,
            i,
        ),
    decreases count,
{
    let rest = channels.remove(c);
    let rest_sources = sources_without(sources, c);
    if count == c + 1 {
        assert forall|k: int| 0 <= k < c implies source_of(sources, k) == source_of(
            rest_sources,
            k,
        ) by {}
        lemma_mix_prefix_agrees(channels, sources, rest, rest_sources, c as nat, buffer_size, i);
    } else {
        lemma_mix_prefix_without_muted(channels, sources, c, (count - 1) as nat, buffer_size, i);
        assert(rest[count - 2] == channels[count - 1]);
        assert(source_of(rest_sources, count - 2) == source_of(sources, count - 1));
    }
}

/// A muted channel adds nothing to the master mix: at every position, for
/// every buffer length, every number of channels and every set of source
/// signals, the mix equals the mix with the muted channel, and its
/// source, taken out.
pub proof fn lemma_muted_adds_nothing(
    channels: Seq<ChannelView>,
    sources: Seq<Seq<i16>>,
    c: int,
    buffer_size: nat,
    i: int,
)
    requires
        0 <= c < channels.len(),
        channels[c].muted,
    ensures
        mixed_sample(channels, sources, buffer_size, i) == mixed_sample(
            channels.remove(c),
            sources_without(sources, c),
            buffer_size,
            i,
        ),
{
    lemma_mix_prefix_without_muted(channels, sources, c, channels.len(), buffer_size, i);
}

proof fn lemma_all_muted_prefix(
    channels: Seq<ChannelView>,
    sources: Seq<Seq<i16>>,
    count: nat,
    buffer_size: nat,
    i: int,
)
    requires
        forall|c: int| 0 <= c < channels.len() ==> (#[trigger] channels[c]).muted,
    ensures
        mix_prefix(channels, sources, count, buffer_size, i) == 0,
    decreases count,
{
    if !(count == 0 || count > channels.len()) {
        lemma_all_muted_prefix(channels, sources, (count - 1) as nat, buffer_size, i);
    }
}

/// A mixer whose channels are all muted mixes to silence, whatever the
/// source signals and the buffer length.
pub proof fn lemma_all_muted_is_silent(
    channels: Seq<ChannelView>,
    sources: Seq<Seq<i16>>,
    buffer_size: nat,
    i: int,
)
    requires
        forall|c: int| 0 <= c < channels.len() ==> (#[trigger] channels[c]).muted,
    ensures
        mixed_sample(channels, sources, buffer_size, i) == 0,
{
    lemma_all_muted_prefix(channels, sources, channels.len(), buffer_size, i);
}

impl MixerView {
    /// The master channel and two more, nothing selected.
    pub open spec fn initial() -> MixerView {
        MixerView {
            channels: seq![
                ChannelView::fresh("Master"@),
                ChannelView::fresh("Channel 1"@),
                ChannelView::fresh("Channel 2"@),
            ],
            selected_channel: None,
        }
    }

    /// This mixer with a fresh channel at the end.
    pub open spec fn with_new_channel(self) -> MixerView {
        MixerView {
            channels: self.channels.push(
                ChannelView::fresh(next_channel_name(self.channels.len())),
            ),
            ..self
        }
    }
}

/// Fills `data` with zeros.
pub(crate) fn silence(data: &mut Vec<i128>)
    ensures
        final(data).len() == old(data).len(),
        forall|k: int| 0 <= k < final(data).len() ==> #[trigger] final(data)[k] == 0,
{
    let size = data.len();
    let mut i: usize = 0;
    while i < size
        invariant
            i <= size,
            data.len() == size,
            forall|k: int| 0 <= k < i ==> #[trigger] data[k] == 0,
        decreases size - i,
    {
        data.set(i, 0);
        i = i + 1;
    }
}

impl Default for Mixer {
    /// The master channel and two more, nothing selected.
    fn default() -> (mixer: Mixer)
        ensures
            mixer@ == MixerView::initial(),
    {
        let mut channels: Vec<Channel> = Vec::new();
        channels.push(Channel::new("Master"));
        channels.push(Channel::new("Channel 1"));
        channels.push(Channel::new("Channel 2"));
        let mixer = Mixer { channels, selected_channel: None };
        assert(mixer@.channels =~= MixerView::initial().channels);
        mixer
    }
}

impl Mixer {
    /// Appends a channel at zero volume, centred and not muted, named
    /// `Channel` and one more than the number of channels before it.
    pub fn add_channel(&mut self)
        ensures
            final(self)@ == old(self)@.with_new_channel(),
    {
        let len = self.channels.len();
        let mut name = String::from_str("Channel ");
        proof {
            reveal_strlit("Channel ");
            assert(name@ =~= seq!['C', 'h', 'a', 'n', 'n', 'e', 'l', ' ']);
        }
        append_decimal(&mut name, len as u128 + 1);
        let channel = Channel { volume: 0, panning: 0, muted: false, name };
        self.channels.push(channel);
        assert(self@.channels =~= old(self)@.with_new_channel().channels);
    }

    /// Writes the master mix of the channels, each fed its own source
    /// signal, over `data`, whose length is kept: every position holds the
    /// sum over the channels of what each renders there. A channel without
    /// a source signal is fed silence. The sum is neither limited nor
    /// clipped: the buffer is wide enough for any number of channels. It
    /// is built in place, without a buffer for each channel.
    pub fn mix_sources(&self, sources: &Vec<Vec<i16>>, data: &mut Vec<i128>)
        ensures
            final(data).len() == old(data).len(),
            is_mix(self@.channels, signals(sources@), final(data)@),
    {
        let size = data.len();
        let frames = size / 2;
        let ghost srcs = signals(sources@);
        silence(data);
        let mut c: usize = 0;
        while c < self.channels.len()
            invariant
                c <= self.channels.len(),
                data.len() == size,
                frames == size / 2,
                srcs == signals(sources@),
                forall|k: int|
                    0 <= k < size ==> #[trigger] data[k] == mix_prefix(
                        self@.channels,
                        srcs,
                        c as nat,
                        size as nat,
                        k,
                    ),
            decreases self.channels.len() - c,
        {
            let channel = &self.channels[c];
            let ghost base = data@;
            let ghost source = source_of(srcs, c as int);
            let count = if channel.muted || c >= sources.len() {
                0
            } else if sources[c].len() < frames {
                sources[c].len()
            } else {
                frames
            };
            let mut f: usize = 0;
            while f < count
                invariant
                    f <= count <= frames,
                    frames == size / 2,
                    c < self.channels.len(),
                    channel == self.channels[c as int],
                    source == source_of(srcs, c as int),
                    srcs == signals(sources@),
                    count > 0 ==> !channel.muted && c < sources.len() && count
                        <= sources[c as int].len(),
                    data.len() == size,
                    base.len() == size,
                    forall|k: int|
                        0 <= k < size ==> #[trigger] base[k] == mix_prefix(
                            self@.channels,
                            srcs,
                            c as nat,
                            size as nat,
                            k,
                        ),
                    forall|k: int|
                        0 <= k < 2 * f ==> #[trigger] data[k] == base[k] + channel@.output_at(
                            source,
                            size as nat,
                            k,
                        ),
                    forall|k: int| 2 * f <= k < size ==> #[trigger] data[k] == base[k],
                decreases count - f,
            {
                proof {
                    lemma_mix_prefix_bound(self@.channels, srcs, c as nat, size as nat, 2 * f);
                    lemma_mix_prefix_bound(self@.channels, srcs, c as nat, size as nat, 2 * f + 1);
                    assert(c * MAX_CONTRIBUTION <= 0xffff_ffff_ffff_ffff * MAX_CONTRIBUTION)
                        by (nonlinear_arith)
                        requires
                            c <= 0xffff_ffff_ffff_ffff,
                    ;
                }
                let pair = channel.render_frame(sources[c][f]);
                let left: i128 = data[2 * f] + pair.0 as i128;
                let right: i128 = data[2 * f + 1] + pair.1 as i128;
                data.set(2 * f, left);
                data.set(2 * f + 1, right);
                f = f + 1;
            }
            proof {
                assert forall|k: int| 0 <= k < size implies #[trigger] data[k] == mix_prefix(
                    self@.channels,
                    srcs,
                    (c + 1) as nat,
                    size as nat,
                    k,
                ) by {
                    assert(self@.channels[c as int] == channel@);
                }
            }
            c = c + 1;
        }
    }

    /// Writes the master mix of the channels' placeholder signals over
    /// `data`, whose length is kept. Every channel that is not muted draws
    /// white noise, one sample for each whole frame; whatever is drawn,
    /// the buffer is the mix of the channels fed what was drawn. The sum
    /// is built in place, without a buffer for each channel.
    pub fn render_buffer(&self, data: &mut Vec<i128>)
        ensures
            final(data).len() == old(data).len(),
            exists|sources: Seq<Seq<i16>>| #[trigger]
                is_mix(self@.channels, sources, final(data)@),
    {
        let size = data.len();
        let frames = size / 2;
        silence(data);
        let ghost mut srcs: Seq<Seq<i16>> = Seq::empty();
        let mut c: usize = 0;
        while c < self.channels.len()
            invariant
                c <= self.channels.len(),
                data.len() == size,
                frames == size / 2,
                srcs.len() == c,
                forall|k: int|
                    0 <= k < size ==> #[trigger] data[k] == mix_prefix(
                        self@.channels,
                        srcs,
                        c as nat,
                        size as nat,
                        k,
                    ),
            decreases self.channels.len() - c,
        {
            let channel = &self.channels[c];
            let ghost base = data@;
            let ghost mut drawn: Seq<i16> = Seq::empty();
            let count = if channel.muted {
                0
            } else {
                frames
            };
            let mut f: usize = 0;
            while f < count
                invariant
                    f <= count <= frames,
                    frames == size / 2,
                    c < self.channels.len(),
                    channel == self.channels[c as int],
                    count > 0 ==> !channel.muted,
                    drawn.len() == f,
                    srcs.len() == c,
                    data.len() == size,
                    base.len() == size,
                    forall|k: int|
                        0 <= k < size ==> #[trigger] base[k] == mix_prefix(
                            self@.channels,
                            srcs,
                            c as nat,
                            size as nat,
                            k,
                        ),
                    forall|k: int|
                        0 <= k < 2 * f ==> #[trigger] data[k] == base[k] + channel@.output_at(
                            drawn,
                            size as nat,
                            k,
                        ),
                    forall|k: int| 2 * f <= k < size ==> #[trigger] data[k] == base[k],
                decreases count - f,
            {
                proof {
                    lemma_mix_prefix_bound(self@.channels, srcs, c as nat, size as nat, 2 * f);
                    lemma_mix_prefix_bound(self@.channels, srcs, c as nat, size as nat, 2 * f + 1);
                    assert(c * MAX_CONTRIBUTION <= 0xffff_ffff_ffff_ffff * MAX_CONTRIBUTION)
                        by (nonlinear_arith)
                        requires
                            c <= 0xffff_ffff_ffff_ffff,
                    ;
                }
                let sample = random_sample();
                let pair = channel.render_frame(sample);
                let left: i128 = data[2 * f] + pair.0 as i128;
                let right: i128 = data[2 * f + 1] + pair.1 as i128;
                data.set(2 * f, left);
                data.set(2 * f + 1, right);
                proof {
                    let longer = drawn.push(sample);
                    assert forall|k: int| 0 <= k < 2 * f implies channel@.output_at(
                        longer,
                        size as nat,
                        k,
                    ) == channel@.output_at(drawn, size as nat, k) by {
                        assert(longer[k / 2] == drawn[k / 2]);
                    }
                    drawn = longer;
                }
                f = f + 1;
            }
            proof {
                let more = srcs.push(drawn);
                assert forall|k: int| 0 <= k < size implies #[trigger] data[k] == mix_prefix(
                    self@.channels,
                    more,
                    (c + 1) as nat,
                    size as nat,
                    k,
                ) by {
                    assert(self@.channels[c as int] == channel@);
                    assert(source_of(more, c as int) == drawn);
                    assert forall|j: int| 0 <= j < c implies source_of(srcs, j) == source_of(
                        more,
                        j,
                    ) by {}
                    lemma_mix_prefix_agrees(
                        self@.channels,
                        srcs,
                        self@.channels,
                        more,
                        c as nat,
                        size as nat,
                        k,
                    );
                }
                srcs = more;
            }
            c = c + 1;
        }
        assert(is_mix(self@.channels, srcs, data@));
    }
}

} // verus!
