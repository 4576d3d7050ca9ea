//! The factory the engines hand to the signal-processing shell when they
//! assemble function-table oscillators.

use vstd::prelude::*;

verus! {

/// Builds unit generators for one fixed sample rate.
///
/// The oscillators themselves produce floating-point waveforms and live in
/// the shell around this crate; the factory pins down the sample rate they
/// are all built for, so a signal chain cannot mix rates.
pub struct UGenFactory {
    sample_rate: u32,
}

impl UGenFactory {
    /// The sample rate every unit generator from this factory runs at.
    pub closed spec fn spec_sample_rate(&self) -> u32 {
        self.sample_rate
    }

    pub fn new(sample_rate: u32) -> (r: Self)
        ensures
            r.spec_sample_rate() == sample_rate,
    {
        UGenFactory { sample_rate }
    }

    pub fn sample_rate(&self) -> (r: u32)
        ensures
            r == self.spec_sample_rate(),
    {
        self.sample_rate
    }
}

} // verus!
