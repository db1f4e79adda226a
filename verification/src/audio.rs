//! The output stream that the engine plays into.

use vstd::prelude::*;

verus! {

/// The sample rate of the output stream, in frames per second.
pub const SAMPLE_RATE: u32 = 48_000;

/// The channels of the output stream: interleaved stereo.
pub const CHANNELS: u16 = 2;

/// The sample formats that an output device may offer.
#[derive(Clone, Copy, Debug, PartialEq, Eq, Structural)]
pub enum SampleFormat {
    /// 32-bit floating point.
    F32,
    /// Any other format.
    Other,
}

/// A range of stream configurations that an output device supports.
#[derive(Clone, Copy, Debug, PartialEq, Eq, Structural)]
pub struct StreamConfigRange {
    pub channels: u16,
    pub sample_format: SampleFormat,
    pub min_sample_rate: u32,
    pub max_sample_rate: u32,
}

impl StreamConfigRange {
    /// The range offers what the engine plays: two channels of 32-bit float
    /// samples, at rates among which 48 kHz lies.
    pub open spec fn desired(self) -> bool {
        &&& self.channels == CHANNELS
        &&& self.sample_format == SampleFormat::F32
        &&& self.min_sample_rate <= SAMPLE_RATE <= self.max_sample_rate
    }

    /// Whether the range offers what the engine plays.
    pub fn desired_config(&self) -> (fit: bool)
        ensures
            fit == self.desired(),
    {
        self.channels == CHANNELS && self.sample_format == SampleFormat::F32
            && self.min_sample_rate <= SAMPLE_RATE && self.max_sample_rate >= SAMPLE_RATE
    }
}

/// The first of a device's ranges that offers what the engine plays, by its
/// index. `None` where no range does: such a device cannot be played on.
pub fn select_config(ranges: &Vec<StreamConfigRange>) -> (chosen: Option<usize>)
    ensures
        match chosen {
            Some(k) => {
                &&& k < ranges.len()
                &&& ranges[k as int].desired()
                &&& forall|i: int| 0 <= i < k ==> !(#[trigger] ranges[i]).desired()
            },
            None => forall|i: int| 0 <= i < ranges.len() ==> !(#[trigger] ranges[i]).desired(),
        },
{
    let mut k: usize = 0;
    while k < ranges.len()
        invariant
            k <= ranges.len(),
            forall|i: int| 0 <= i < k ==> !(#[trigger] ranges[i]).desired(),
        decreases ranges.len() - k,
    {
        if ranges[k].desired_config() {
            return Some(k);
        }
        k += 1;
    }
    None
}

} // verus!
