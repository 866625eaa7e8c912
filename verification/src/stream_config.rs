//! Plain descriptions of what an output device offers and of the stream
//! that is asked of it.

use vstd::prelude::*;

verus! {

/// Buffer size asked for where the device leaves a choice.
pub const PREFERRED_BUFFER_SIZE: u32 = 960;

/// Sample rate that the settings start from, in hertz.
pub const DEFAULT_SAMPLE_RATE: u32 = 48_000;

/// Channels of every stream that is built: stereo.
pub const OUTPUT_CHANNELS: u16 = 2;

/// The number format of a device's samples.
#[derive(Clone, Copy, PartialEq, Eq, Structural, Debug)]
pub enum SampleFormat {
    I8,
    I16,
    I32,
    I64,
    U8,
    U16,
    U32,
    U64,
    F32,
    F64,
}

/// The buffer sizes, in frames, that a device takes.
#[derive(Clone, Copy, PartialEq, Eq, Structural, Debug)]
pub enum SupportedBufferSize {
    Range { min: u32, max: u32 },
    Unknown,
}

/// A family of stream configurations that a device supports: all sample
/// rates from `min_sample_rate` to `max_sample_rate`.
#[derive(Clone, Copy, PartialEq, Eq, Structural, Debug)]
pub struct SupportedStreamConfigRange {
    pub channels: u16,
    pub min_sample_rate: u32,
    pub max_sample_rate: u32,
    pub buffer_size: SupportedBufferSize,
    pub sample_format: SampleFormat,
}

/// One supported stream configuration.
#[derive(Clone, Copy, PartialEq, Eq, Structural, Debug)]
pub struct SupportedStreamConfig {
    pub channels: u16,
    pub sample_rate: u32,
    pub buffer_size: SupportedBufferSize,
    pub sample_format: SampleFormat,
}

/// What a stream is built with: a fixed buffer size in frames.
#[derive(Clone, Copy, PartialEq, Eq, Structural, Debug)]
pub struct StreamConfig {
    pub channels: u16,
    pub sample_rate: u32,
    pub buffer_size: u32,
}

/// What can go wrong outside the render path. Every one of them leaves the
/// process running and the engine able to take the next command.
#[derive(Clone, Copy, PartialEq, Eq, Structural, Debug)]
pub enum AudioError {
    /// The device does not support what was asked of it.
    ConfigurationError,
    /// The control queue took no more commands.
    QueueFull,
    /// No device stands at the given position.
    DeviceUnavailable,
}

/// `x` held to the range from `low` to `high`, for `low <= high`.
pub open spec fn clamped_rate(x: u32, low: u32, high: u32) -> u32 {
    if x < low {
        low
    } else if x > high {
        high
    } else {
        x
    }
}

impl SupportedBufferSize {
    /// Whether the range, if there is one, is not empty.
    pub open spec fn well_formed(self) -> bool {
        match self {
            SupportedBufferSize::Range { min, max } => min <= max,
            SupportedBufferSize::Unknown => true,
        }
    }

    /// The buffer size to ask for: the preferred size brought into the
    /// range, or the preferred size itself where the range is unknown.
    pub open spec fn preferred(self) -> u32 {
        match self {
            SupportedBufferSize::Range { min, max } => clamped_rate(PREFERRED_BUFFER_SIZE, min, max),
            SupportedBufferSize::Unknown => PREFERRED_BUFFER_SIZE,
        }
    }

    /// The buffer size to ask for, or nothing where the range is empty.
    pub fn preferred_size(&self) -> (size: Option<u32>)
        ensures
            size == (if self.well_formed() {
                Some(self.preferred())
            } else {
                None
            }),
    {
        match self {
            SupportedBufferSize::Unknown => Some(PREFERRED_BUFFER_SIZE),
            SupportedBufferSize::Range { min, max } => {
                if *min > *max {
                    None
                } else if PREFERRED_BUFFER_SIZE < *min {
                    Some(*min)
                } else if PREFERRED_BUFFER_SIZE > *max {
                    Some(*max)
                } else {
                    Some(PREFERRED_BUFFER_SIZE)
                }
            },
        }
    }
}

impl SupportedStreamConfigRange {
    /// Whether neither the range of sample rates nor that of buffer sizes
    /// is empty.
    pub open spec fn well_formed(self) -> bool {
        self.min_sample_rate <= self.max_sample_rate && self.buffer_size.well_formed()
    }

    /// Whether the range offers this sample rate.
    pub open spec fn supports(self, sample_rate: u32) -> bool {
        self.min_sample_rate <= sample_rate <= self.max_sample_rate
    }

    /// The configuration of this family at `sample_rate`.
    pub open spec fn at_rate(self, sample_rate: u32) -> SupportedStreamConfig {
        SupportedStreamConfig {
            channels: self.channels,
            sample_rate,
            buffer_size: self.buffer_size,
            sample_format: self.sample_format,
        }
    }

    /// The sample rate nearest to `sample_rate` that the range offers, or
    /// nothing where the range is empty.
    pub fn nearest_sample_rate(&self, sample_rate: u32) -> (nearest: Option<u32>)
        ensures
            nearest == (if self.min_sample_rate <= self.max_sample_rate {
                Some(clamped_rate(sample_rate, self.min_sample_rate, self.max_sample_rate))
            } else {
                None
            }),
    {
        if self.min_sample_rate > self.max_sample_rate {
            None
        } else if sample_rate < self.min_sample_rate {
            Some(self.min_sample_rate)
        } else if sample_rate > self.max_sample_rate {
            Some(self.max_sample_rate)
        } else {
            Some(sample_rate)
        }
    }
}

} // verus!
