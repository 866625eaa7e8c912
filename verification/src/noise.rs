//! The placeholder signal of a channel that has nothing routed to it yet:
//! white noise from the thread-local random generator.

use vstd::prelude::*;

verus! {

/// Draws one sample by `rand::random::<i16>()`, which samples the standard
/// distribution of `i16` from the thread-local generator. Nothing is
/// claimed of the value beyond its type.
#[verifier::external_body]
pub(crate) fn random_sample() -> (sample: i16) {
    rand::random::<i16>()
}

/// A mono noise signal of `frames` samples.
pub fn noise_source(frames: usize) -> (source: Vec<i16>)
    ensures
        source.len() == frames,
{
    let mut source: Vec<i16> = Vec::new();
    let mut i: usize = 0;
    while i < frames
        invariant
            i <= frames,
            source.len() == i,
        decreases frames - i,
    {
        source.push(random_sample());
        i = i + 1;
    }
    source
}

} // verus!
