//! Recorder builders: the configuration half of the capture sources.
//!
//! A capture source owns a backend thread that discovers a device and
//! pushes frames into a [`SampleBuffer`].  Device discovery and the
//! delivery loop are host-API work outside this core; what is verified
//! here is the configuration arithmetic — how unset knobs resolve to
//! defaults — and the construction of the shared buffer the backend
//! writes into.

use vstd::prelude::*;

use crate::buffer::SampleBuffer;
use crate::Error;

verus! {

/// A constructed capture source: something that owns a sample buffer fed
/// by an audio backend.
pub trait Recorder {
    /// The buffer this recorder's backend pushes into.
    fn sample_buffer(&self) -> &SampleBuffer;
}

/// Builder for a capture source backed by a general-purpose host audio
/// API.
#[derive(Clone, Copy, Debug, PartialEq, Eq, Structural)]
pub struct CPalBuilder {
    pub rate: Option<usize>,
    pub buffer_size: Option<usize>,
    pub read_size: Option<usize>,
}

impl CPalBuilder {
    /// A builder with every knob unset.
    pub fn new() -> (b: CPalBuilder)
        ensures
            b == (CPalBuilder { rate: None, buffer_size: None, read_size: None }),
    {
        CPalBuilder { rate: None, buffer_size: None, read_size: None }
    }

    /// Set the sample rate.
    pub fn rate(self, rate: usize) -> (b: CPalBuilder)
        ensures
            b == (CPalBuilder { rate: Some(rate), ..self }),
    {
        CPalBuilder { rate: Some(rate), ..self }
    }

    /// Set the buffer capacity in frames.
    pub fn buffer_size(self, buffer_size: usize) -> (b: CPalBuilder)
        ensures
            b == (CPalBuilder { buffer_size: Some(buffer_size), ..self }),
    {
        CPalBuilder { buffer_size: Some(buffer_size), ..self }
    }

    /// Set the batch size of one backend read.
    pub fn read_size(self, read_size: usize) -> (b: CPalBuilder)
        ensures
            b == (CPalBuilder { read_size: Some(read_size), ..self }),
    {
        CPalBuilder { read_size: Some(read_size), ..self }
    }

    /// The sample rate this builder resolves to.
    pub open spec fn resolved_rate_spec(self) -> int {
        match self.rate {
            Some(r) => r as int,
            None => 8000,
        }
    }

    /// The buffer capacity this builder resolves to.
    pub open spec fn resolved_buffer_size_spec(self) -> int {
        match self.buffer_size {
            Some(s) => s as int,
            None => 16000,
        }
    }

    /// The backend read batch size this builder resolves to: the
    /// configured buffer size, else 256 frames.
    pub open spec fn resolved_read_size_spec(self) -> int {
        match self.buffer_size {
            Some(s) => s as int,
            None => 256,
        }
    }

    /// Resolve the sample rate.
    pub fn resolved_rate(&self) -> (r: usize)
        ensures
            r as int == self.resolved_rate_spec(),
    {
        match self.rate {
            Some(r) => r,
            None => 8000,
        }
    }

    /// Resolve the buffer capacity.
    pub fn resolved_buffer_size(&self) -> (r: usize)
        ensures
            r as int == self.resolved_buffer_size_spec(),
    {
        match self.buffer_size {
            Some(s) => s,
            None => 16000,
        }
    }

    /// Resolve the backend read batch size.
    pub fn resolved_read_size(&self) -> (r: usize)
        ensures
            r as int == self.resolved_read_size_spec(),
    {
        match self.buffer_size {
            Some(s) => s,
            None => 256,
        }
    }

    /// Construct the recorder: a silent buffer of the resolved capacity
    /// and rate.  Fails with a configuration error exactly when the
    /// resolved capacity is zero.
    pub fn create(&self) -> (r: Result<CPalRecorder, Error>)
        ensures
            match r {
                Ok(rec) => {
                    &&& self.resolved_buffer_size_spec() >= 1
                    &&& rec.buf().wf()
                    &&& rec.buf().cap() == self.resolved_buffer_size_spec()
                    &&& rec.buf().rate_spec() == self.resolved_rate_spec()
                    &&& rec.buf().history() == Seq::<crate::StereoSample>::empty()
                    &&& rec.rate_spec() == self.resolved_rate_spec()
                },
                Err(e) => {
                    &&& self.resolved_buffer_size_spec() == 0
                    &&& e == Error::ConfigurationError
                },
            },
    {
        let rate = self.resolved_rate();
        let buffer_size = self.resolved_buffer_size();
        match SampleBuffer::new(buffer_size, rate) {
            Ok(buffer) => Ok(CPalRecorder { rate, buffer }),
            Err(e) => Err(e),
        }
    }

    /// Construct the recorder behind the capture-source interface.
    pub fn build(&self) -> (r: Result<Box<dyn Recorder>, Error>)
        ensures
            match r {
                Ok(_) => self.resolved_buffer_size_spec() >= 1,
                Err(e) => self.resolved_buffer_size_spec() == 0 && e
                    == Error::ConfigurationError,
            },
    {
        match self.create() {
            Ok(rec) => Ok(Box::new(rec)),
            Err(e) => Err(e),
        }
    }
}

/// A capture source backed by a general-purpose host audio API: the
/// resolved rate and the buffer its backend thread fills.
pub struct CPalRecorder {
    rate: usize,
    buffer: SampleBuffer,
}

impl CPalRecorder {
    /// The resolved sample rate.
    pub closed spec fn rate_spec(self) -> int {
        self.rate as int
    }

    /// The buffer this recorder owns.
    pub closed spec fn buf(self) -> SampleBuffer {
        self.buffer
    }

    /// The buffer this recorder owns.
    pub fn buffer(&self) -> (b: &SampleBuffer)
        ensures
            *b == self.buf(),
    {
        &self.buffer
    }
}

impl Recorder for CPalRecorder {
    fn sample_buffer(&self) -> &SampleBuffer {
        &self.buffer
    }
}

/// Builder for a capture source backed by a sound-server connection.
#[derive(Clone, Copy, Debug, PartialEq, Eq, Structural)]
pub struct PulseBuilder {
    pub rate: Option<usize>,
    pub read_size: Option<usize>,
    pub buffer_size: Option<usize>,
}

impl PulseBuilder {
    /// A builder with every knob unset.
    pub fn new() -> (b: PulseBuilder)
        ensures
            b == (PulseBuilder { rate: None, read_size: None, buffer_size: None }),
    {
        PulseBuilder { rate: None, read_size: None, buffer_size: None }
    }

    /// Set the sample rate.
    pub fn rate(self, rate: usize) -> (b: PulseBuilder)
        ensures
            b == (PulseBuilder { rate: Some(rate), ..self }),
    {
        PulseBuilder { rate: Some(rate), ..self }
    }

    /// Set the batch size of one backend read.
    pub fn read_size(self, size: usize) -> (b: PulseBuilder)
        ensures
            b == (PulseBuilder { read_size: Some(size), ..self }),
    {
        PulseBuilder { read_size: Some(size), ..self }
    }

    /// Set the buffer capacity in frames.
    pub fn buffer_size(self, size: usize) -> (b: PulseBuilder)
        ensures
            b == (PulseBuilder { buffer_size: Some(size), ..self }),
    {
        PulseBuilder { buffer_size: Some(size), ..self }
    }

    /// The sample rate this builder resolves to.
    pub open spec fn resolved_rate_spec(self) -> int {
        match self.rate {
            Some(r) => r as int,
            None => 8000,
        }
    }

    /// The buffer capacity this builder resolves to.
    pub open spec fn resolved_buffer_size_spec(self) -> int {
        match self.buffer_size {
            Some(s) => s as int,
            None => 16000,
        }
    }

    /// The backend read batch size this builder resolves to: the
    /// configured buffer size, else 32 frames.
    pub open spec fn resolved_read_size_spec(self) -> int {
        match self.buffer_size {
            Some(s) => s as int,
            None => 32,
        }
    }

    /// Resolve the sample rate.
    pub fn resolved_rate(&self) -> (r: usize)
        ensures
            r as int == self.resolved_rate_spec(),
    {
        match self.rate {
            Some(r) => r,
            None => 8000,
        }
    }

    /// Resolve the buffer capacity.
    pub fn resolved_buffer_size(&self) -> (r: usize)
        ensures
            r as int == self.resolved_buffer_size_spec(),
    {
        match self.buffer_size {
            Some(s) => s,
            None => 16000,
        }
    }

    /// Resolve the backend read batch size.
    pub fn resolved_read_size(&self) -> (r: usize)
        ensures
            r as int == self.resolved_read_size_spec(),
    {
        match self.buffer_size {
            Some(s) => s,
            None => 32,
        }
    }

    /// Construct the recorder: a silent buffer of the resolved capacity
    /// and rate.  Fails with a configuration error exactly when the
    /// resolved capacity is zero.
    pub fn create(&self) -> (r: Result<PulseRecorder, Error>)
        ensures
            match r {
                Ok(rec) => {
                    &&& self.resolved_buffer_size_spec() >= 1
                    &&& rec.buf().wf()
                    &&& rec.buf().cap() == self.resolved_buffer_size_spec()
                    &&& rec.buf().rate_spec() == self.resolved_rate_spec()
                    &&& rec.buf().history() == Seq::<crate::StereoSample>::empty()
                    &&& rec.rate_spec() == self.resolved_rate_spec()
                },
                Err(e) => {
                    &&& self.resolved_buffer_size_spec() == 0
                    &&& e == Error::ConfigurationError
                },
            },
    {
        let rate = self.resolved_rate();
        let buffer_size = self.resolved_buffer_size();
        match SampleBuffer::new(buffer_size, rate) {
            Ok(buffer) => Ok(PulseRecorder { rate, buffer }),
            Err(e) => Err(e),
        }
    }

    /// Construct the recorder behind the capture-source interface.
    pub fn build(&self) -> (r: Result<Box<dyn Recorder>, Error>)
        ensures
            match r {
                Ok(_) => self.resolved_buffer_size_spec() >= 1,
                Err(e) => self.resolved_buffer_size_spec() == 0 && e
                    == Error::ConfigurationError,
            },
    {
        match self.create() {
            Ok(rec) => Ok(Box::new(rec)),
            Err(e) => Err(e),
        }
    }
}

/// A capture source backed by a sound-server connection: the resolved
/// rate and the buffer its backend thread fills.
pub struct PulseRecorder {
    rate: usize,
    buffer: SampleBuffer,
}

impl PulseRecorder {
    /// The resolved sample rate.
    pub closed spec fn rate_spec(self) -> int {
        self.rate as int
    }

    /// The buffer this recorder owns.
    pub closed spec fn buf(self) -> SampleBuffer {
        self.buffer
    }

    /// The buffer this recorder owns.
    pub fn buffer(&self) -> (b: &SampleBuffer)
        ensures
            *b == self.buf(),
    {
        &self.buffer
    }
}

impl Recorder for PulseRecorder {
    fn sample_buffer(&self) -> &SampleBuffer {
        &self.buffer
    }
}

} // verus!
