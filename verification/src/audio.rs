//! Audio settings shared with the decoding and resampling front end.

use vstd::prelude::*;

verus! {

/// Quality of the sinc resampler used to bring audio to 16 kHz.
#[derive(Debug, Clone, Copy, PartialEq, Eq, Structural)]
pub enum ResampleQuality {
    /// Short sinc filter, linear interpolation.
    Fast,
    /// Long sinc filter, cubic interpolation.
    High,
}

impl Default for ResampleQuality {
    fn default() -> (q: Self)
        ensures
            q == ResampleQuality::Fast,
    {
        ResampleQuality::Fast
    }
}

} // verus!
