//! Core of a live audio spectrum visualizer.
//!
//! A capture thread feeds stereo frames into a fixed-capacity circular
//! [`SampleBuffer`](buffer::SampleBuffer); any number of consumers pull
//! decimated windows out of it and hand them, tapered by a window function,
//! to an external frequency transform.  Amplitudes are carried as raw IEEE
//! 754 bit patterns: the buffer and the analyzer select and align samples,
//! they never do arithmetic on them, so every data movement here is exact.

use vstd::prelude::*;

pub mod buffer;
pub mod fourier;
pub mod handle;
pub mod recorder;
pub mod windows;

verus! {

/// Errors the core can report.  Steady-state operations are infallible by
/// construction; only constructors and name lookup can fail.
#[derive(Clone, Copy, Debug, PartialEq, Eq, Structural)]
pub enum Error {
    /// Invalid capacity, transform length, downsample factor or coefficient
    /// count handed to a constructor.
    ConfigurationError,
    /// A window function name that the library does not know.
    NameNotFound,
}

/// One stereo frame: the amplitudes of the left and the right channel,
/// each stored as the raw bit pattern of an IEEE 754 single-precision
/// value.  The all-zero pattern is the amplitude zero, so silence is
/// `StereoSample { left: 0, right: 0 }`.
#[derive(Clone, Copy, Debug, PartialEq, Eq, Structural)]
pub struct StereoSample {
    pub left: u32,
    pub right: u32,
}

/// The silent frame: both channels at amplitude zero.
pub open spec fn silence() -> StereoSample {
    StereoSample { left: 0, right: 0 }
}

/// Executable counterpart of [`silence`].
pub fn silent_frame() -> (s: StereoSample)
    ensures
        s == silence(),
{
    StereoSample { left: 0, right: 0 }
}

} // verus!
