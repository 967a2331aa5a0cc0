//! Spectral analysis front end.
//!
//! A `FourierAnalyzer` owns a validated transform configuration: transform
//! length, downsample factor and a window coefficient vector of matching
//! length.  `analyze` pulls a decimated window from a [`SampleBuffer`] and
//! aligns each frame with its tapering coefficient; the frequency
//! transform itself is an external numerical step that consumes the
//! aligned frames downstream.

use vstd::prelude::*;

use crate::buffer::SampleBuffer;
use crate::handle::BufferHandle;
use crate::windows::{coeffs_of, generate_kind, WindowKind};
use crate::Error;

verus! {

/// One analysis input element: the two channel amplitudes of a frame,
/// each paired with the tapering coefficient of its position in the
/// window.  Amplitudes are single-precision bit patterns, coefficients
/// double-precision bit patterns.
#[derive(Clone, Copy, Debug, PartialEq, Eq, Structural)]
pub struct WindowedFrame {
    pub left: u32,
    pub right: u32,
    pub coeff: u64,
}

/// Configuration collector for a [`FourierAnalyzer`].  Unset knobs fall
/// back to the documented defaults: length 1024, rectangular window,
/// downsample factor 1.
#[derive(Clone, Copy, Debug, PartialEq, Eq, Structural)]
pub struct FourierBuilder {
    pub length: Option<usize>,
    pub window: Option<WindowKind>,
    pub downsample: Option<usize>,
}

impl FourierBuilder {
    /// A builder with every knob unset.
    pub fn new() -> (b: FourierBuilder)
        ensures
            b == (FourierBuilder { length: None, window: None, downsample: None }),
    {
        FourierBuilder { length: None, window: None, downsample: None }
    }

    /// Set the transform length.
    pub fn length(self, length: usize) -> (b: FourierBuilder)
        ensures
            b == (FourierBuilder { length: Some(length), ..self }),
    {
        FourierBuilder { length: Some(length), ..self }
    }

    /// Set the window shape.
    pub fn window(self, kind: WindowKind) -> (b: FourierBuilder)
        ensures
            b == (FourierBuilder { window: Some(kind), ..self }),
    {
        FourierBuilder { window: Some(kind), ..self }
    }

    /// Set the downsample factor.
    pub fn downsample(self, factor: usize) -> (b: FourierBuilder)
        ensures
            b == (FourierBuilder { downsample: Some(factor), ..self }),
    {
        FourierBuilder { downsample: Some(factor), ..self }
    }

    /// The transform length this builder resolves to.
    pub open spec fn resolved_length(self) -> int {
        match self.length {
            Some(n) => n as int,
            None => 1024,
        }
    }

    /// The window shape this builder resolves to.
    pub open spec fn resolved_window(self) -> WindowKind {
        match self.window {
            Some(k) => k,
            None => WindowKind::Rectangular,
        }
    }

    /// The downsample factor this builder resolves to.
    pub open spec fn resolved_downsample(self) -> int {
        match self.downsample {
            Some(d) => d as int,
            None => 1,
        }
    }

    /// Resolve the configuration and construct the analyzer.  Fails with
    /// a configuration error exactly when the resolved transform length
    /// or downsample factor is zero, or their product does not fit the
    /// machine's index range.
    pub fn plan(&self) -> (r: Result<FourierAnalyzer, Error>)
        ensures
            ({
                let n = self.resolved_length();
                let d = self.resolved_downsample();
                match r {
                    Ok(a) => {
                        &&& n >= 1
                        &&& d >= 1
                        &&& n * d <= usize::MAX
                        &&& a.wf()
                        &&& a.length() == n
                        &&& a.downsample() == d
                        &&& a.window() == coeffs_of(self.resolved_window(), n)
                    },
                    Err(e) => {
                        &&& (n < 1 || d < 1 || n * d > usize::MAX)
                        &&& e == Error::ConfigurationError
                    },
                }
            }),
    {
        let length = match self.length {
            Some(n) => n,
            None => 1024,
        };
        let downsample = match self.downsample {
            Some(d) => d,
            None => 1,
        };
        let kind = match self.window {
            Some(k) => k,
            None => WindowKind::Rectangular,
        };
        if length == 0 {
            return Err(Error::ConfigurationError);
        }
        let window = generate_kind(kind, length);
        FourierAnalyzer::new(length, window, downsample)
    }
}

/// Spectral analyzer: validated transform configuration plus the resolved
/// window coefficients.  Its identity never changes after construction.
pub struct FourierAnalyzer {
    length: usize,
    window: Vec<u64>,
    downsample: usize,
}

impl FourierAnalyzer {
    /// Transform length.
    pub closed spec fn length(self) -> int {
        self.length as int
    }

    /// Downsample factor.
    pub closed spec fn downsample(self) -> int {
        self.downsample as int
    }

    /// Window coefficients, index-aligned with the analysis window.
    pub closed spec fn window(self) -> Seq<u64> {
        self.window@
    }

    /// A validly constructed analyzer: positive transform length and
    /// downsample factor, exactly one coefficient per sample, and a
    /// window extent that fits the machine's index range.
    pub closed spec fn wf(self) -> bool {
        &&& self.length >= 1
        &&& self.downsample >= 1
        &&& self.window@.len() == self.length
        &&& self.length * self.downsample <= usize::MAX
    }

    /// Construct an analyzer from a transform length, a coefficient
    /// vector and a downsample factor.  Fails with a configuration error
    /// exactly when the length or the factor is zero, the coefficient
    /// count differs from the length, or the window extent does not fit
    /// the machine's index range; nothing is constructed then.
    pub fn new(length: usize, window: Vec<u64>, downsample: usize) -> (r: Result<
        FourierAnalyzer,
        Error,
    >)
        ensures
            match r {
                Ok(a) => {
                    &&& length >= 1
                    &&& downsample >= 1
                    &&& window@.len() == length
                    &&& length * downsample <= usize::MAX
                    &&& a.wf()
                    &&& a.length() == length
                    &&& a.downsample() == downsample
                    &&& a.window() == window@
                },
                Err(e) => {
                    &&& (length < 1 || downsample < 1 || window@.len() != length || length
                        * downsample > usize::MAX)
                    &&& e == Error::ConfigurationError
                },
            },
    {
        if length == 0 || downsample == 0 {
            return Err(Error::ConfigurationError);
        }
        if window.len() != length {
            return Err(Error::ConfigurationError);
        }
        if length > usize::MAX / downsample {
            proof {
                lemma_mul_div_bound(length as int, downsample as int, usize::MAX as int);
            }
            return Err(Error::ConfigurationError);
        }
        proof {
            lemma_div_mul_bound(length as int, downsample as int, usize::MAX as int);
        }
        Ok(FourierAnalyzer { length, window, downsample })
    }

    /// Transform length.
    pub fn transform_length(&self) -> (n: usize)
        ensures
            n as int == self.length(),
    {
        self.length
    }

    /// Downsample factor.
    pub fn downsample_factor(&self) -> (d: usize)
        ensures
            d as int == self.downsample(),
    {
        self.downsample
    }

    /// What one analysis pass hands the frequency transform: the
    /// decimated window of the buffer, each frame's channels paired with
    /// the coefficient at its index.
    pub open spec fn analysis_view(self, b: SampleBuffer) -> Seq<WindowedFrame> {
        Seq::new(
            self.length() as nat,
            |i: int|
                WindowedFrame {
                    left: self.window_of(b)[i].left,
                    right: self.window_of(b)[i].right,
                    coeff: self.window()[i],
                },
        )
    }

    /// The decimated sample window an analysis pass reads.
    pub open spec fn window_of(self, b: SampleBuffer) -> Seq<crate::StereoSample> {
        b.window_view(self.length(), self.downsample())
    }

    /// Pull a decimated window from the buffer and align every frame with
    /// its tapering coefficient.  Infallible on a validly constructed
    /// analyzer; the result is a pure function of the analyzer and the
    /// buffer contents.
    pub fn analyze(&self, b: &SampleBuffer) -> (r: Vec<WindowedFrame>)
        requires
            self.wf(),
            b.wf(),
        ensures
            r@ == self.analysis_view(*b),
            r@.len() == self.length(),
    {
        let samples = b.iter(self.length, self.downsample);
        let r = self.tapered(&samples);
        proof {
            assert(r@ =~= self.analysis_view(*b));
        }
        r
    }

    /// Pull a decimated window through a shared handle and align every
    /// frame with its tapering coefficient.  The result is one analysis
    /// pass over an internally consistent, possibly stale, buffer state
    /// with the handle's capacity and rate.
    pub fn analyze_shared(&self, h: &BufferHandle) -> (r: Vec<WindowedFrame>)
        requires
            self.wf(),
            h.wf(),
        ensures
            r@.len() == self.length(),
            exists|b: SampleBuffer|
                {
                    &&& b.wf()
                    &&& b.cap() == h.cap()
                    &&& b.rate_spec() == h.rate_spec()
                    &&& r@ == self.analysis_view(b)
                },
    {
        let samples = h.window(self.length, self.downsample);
        let r = self.tapered(&samples);
        proof {
            let b = choose|b: SampleBuffer|
                {
                    &&& b.wf()
                    &&& b.cap() == h.cap()
                    &&& b.rate_spec() == h.rate_spec()
                    &&& samples@ == b.window_view(self.length(), self.downsample())
                };
            assert(b.wf() && b.cap() == h.cap() && b.rate_spec() == h.rate_spec() && (r@
                =~= self.analysis_view(b)));
        }
        r
    }

    /// Pair each frame of an already decimated window with the tapering
    /// coefficient at its index.
    fn tapered(&self, samples: &Vec<crate::StereoSample>) -> (r: Vec<WindowedFrame>)
        requires
            self.wf(),
            samples@.len() == self.length(),
        ensures
            r@.len() == self.length(),
            forall|i: int|
                0 <= i < self.length() ==> r@[i] == (WindowedFrame {
                    left: samples@[i].left,
                    right: samples@[i].right,
                    coeff: self.window()[i],
                }),
    {
        let mut r: Vec<WindowedFrame> = Vec::new();
        let mut i: usize = 0;
        while i < self.length
            invariant
                self.wf(),
                samples@.len() == self.length,
                i <= self.length,
                r@.len() == i,
                forall|j: int|
                    0 <= j < i ==> r@[j] == (WindowedFrame {
                        left: samples@[j].left,
                        right: samples@[j].right,
                        coeff: self.window()[j],
                    }),
            decreases self.length - i,
        {
            let s = samples[i];
            let c = self.window[i];
            r.push(WindowedFrame { left: s.left, right: s.right, coeff: c });
            i = i + 1;
        }
        r
    }
}

/// Analysis is idempotent under an unchanged buffer: two passes over
/// buffers with the same capacity and push history produce identical
/// output, so calling `analyze` twice with no intervening `push` yields
/// identical arrays.
pub proof fn lemma_analysis_deterministic(a: FourierAnalyzer, b1: SampleBuffer, b2: SampleBuffer)
    requires
        b1.cap() == b2.cap(),
        b1.history() == b2.history(),
    ensures
        a.analysis_view(b1) == a.analysis_view(b2),
{
    assert forall|k: int| 0 <= k implies b1.nth_back(k) == b2.nth_back(k) by {}
    assert(a.window_of(b1) =~= a.window_of(b2));
    assert(a.analysis_view(b1) =~= a.analysis_view(b2));
}

/// `n <= m / d` implies `n * d <= m` for positive `d`.
proof fn lemma_div_mul_bound(n: int, d: int, m: int)
    requires
        d >= 1,
        m >= 0,
        n <= m / d,
    ensures
        n * d <= m,
{
    vstd::arithmetic::div_mod::lemma_fundamental_div_mod(m, d);
    vstd::arithmetic::div_mod::lemma_mod_division_less_than_divisor(m, d);
    assert(n * d <= (m / d) * d) by (nonlinear_arith)
        requires
            n <= m / d,
            d >= 1,
    ;
    assert((m / d) * d == d * (m / d)) by (nonlinear_arith);
}

/// `n > m / d` implies `n * d > m` for positive `d`.
proof fn lemma_mul_div_bound(n: int, d: int, m: int)
    requires
        d >= 1,
        m >= 0,
        n > m / d,
    ensures
        n * d > m,
{
    vstd::arithmetic::div_mod::lemma_fundamental_div_mod(m, d);
    vstd::arithmetic::div_mod::lemma_mod_division_less_than_divisor(m, d);
    assert(n * d >= (m / d + 1) * d) by (nonlinear_arith)
        requires
            n >= m / d + 1,
            d >= 1,
    ;
    assert((m / d + 1) * d == d * (m / d) + d) by (nonlinear_arith);
}

} // verus!
