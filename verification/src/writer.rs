//! Streaming writer.
//!
//! The writer owns the session's view of the file sink: the header derived at
//! configuration time and an account of every sample the sink has accepted.
//! The sink itself is a file the unverified front end writes; the front end
//! mirrors exactly the writes this model accepts. The handle wraps the writer
//! in the lock discipline the capture callback needs: a write attempt carries
//! the outcome of a non-blocking lock acquisition and is a no-op whenever the
//! lock was contended or the sink is already finalized, so the hardware
//! callback never waits and a finalized sink is never touched again.

use vstd::prelude::*;
use crate::codec::SampleBuffer;
use crate::encoding::{SampleEncoding, SinkFormatTag, SinkHeader};

verus! {

/// Whether samples of encoding `e` are what a sink with header `h` declares.
pub open spec fn spec_encoding_matches(h: SinkHeader, e: SampleEncoding) -> bool {
    &&& h.bits_per_sample == e.spec_bits()
    &&& (h.sample_format is Float <==> e.spec_is_float())
}

pub fn encoding_matches(h: &SinkHeader, e: SampleEncoding) -> (r: bool)
    ensures
        r == spec_encoding_matches(*h, e),
{
    let bits_ok: bool = h.bits_per_sample == e.bits_per_sample();
    let tag_ok: bool = match (h.sample_format, e) {
        (SinkFormatTag::Float, SampleEncoding::Float32) => true,
        (SinkFormatTag::Int, SampleEncoding::Float32) => false,
        (SinkFormatTag::Float, _) => false,
        (SinkFormatTag::Int, _) => true,
    };
    bits_ok && tag_ok
}

/// The session's account of one sink: its immutable header, written before
/// any sample data, and the samples accepted since.
pub struct StreamWriter {
    pub header: SinkHeader,
    pub samples_written: u64,
    pub data: Ghost<Seq<int>>,
}

impl StreamWriter {
    /// The writer counts exactly the samples it has accepted, and its header
    /// declares at least one channel.
    pub open spec fn wf(self) -> bool {
        &&& self.samples_written == self.data@.len()
        &&& 1 <= self.header.channels
    }

    /// A fresh writer for a sink that was just created with `header`: the
    /// header is down, no sample data yet.
    pub fn open(header: SinkHeader) -> (r: StreamWriter)
        requires
            1 <= header.channels,
        ensures
            r.wf(),
            r.header == header,
            r.samples_written == 0,
            r.data@ == Seq::<int>::empty(),
    {
        StreamWriter { header, samples_written: 0, data: Ghost(Seq::empty()) }
    }

    /// Whether this writer accepts a buffer: the encoding must be the one the
    /// header declares and the sample count must still be countable.
    pub open spec fn spec_accepts(self, buf: SampleBuffer) -> bool {
        &&& spec_encoding_matches(self.header, buf.encoding())
        &&& self.samples_written + buf.values().len() <= u64::MAX
    }

    /// Appends a buffer of converted samples to the sink. A buffer in the
    /// wrong encoding is rejected without touching the sink.
    pub fn write(&mut self, buf: &SampleBuffer) -> (accepted: bool)
        requires
            old(self).wf(),
        ensures
            final(self).wf(),
            accepted == old(self).spec_accepts(*buf),
            accepted ==> final(self).header == old(self).header && final(self).data@ == old(
                self,
            ).data@ + buf.values() && final(self).samples_written == old(self).samples_written
                + buf.values().len(),
            !accepted ==> *final(self) == *old(self),
    {
        let len: usize = buf.sample_count();
        if !encoding_matches(&self.header, buf.sample_encoding()) {
            return false;
        }
        if self.samples_written > u64::MAX - (len as u64) {
            return false;
        }
        self.samples_written = self.samples_written + (len as u64);
        proof {
            self.data@ = self.data@ + buf.values();
        }
        true
    }

    /// Whole frames on the sink: one frame is one sample per channel.
    pub fn frames_written(&self) -> (r: u64)
        requires
            self.wf(),
        ensures
            r == self.samples_written as int / self.header.channels as int,
    {
        self.samples_written / (self.header.channels as u64)
    }
}

/// The lock-guarded optional sink both concurrency domains reach: the
/// hardware callback writes through it without blocking, the controlling
/// thread empties it exactly once at finalize.
pub struct WriterHandle {
    pub sink: Option<StreamWriter>,
}

impl WriterHandle {
    pub open spec fn wf(self) -> bool {
        self.sink is Some ==> self.sink.unwrap().wf()
    }

    /// After finalize the handle holds no sink and every later write attempt
    /// is observably a no-op.
    pub open spec fn finalized(self) -> bool {
        self.sink is None
    }

    /// A handle whose sink is open and accounted by `writer`.
    pub fn attach(writer: StreamWriter) -> (r: WriterHandle)
        requires
            writer.wf(),
        ensures
            r.wf(),
            r.sink == Some(writer),
    {
        WriterHandle { sink: Some(writer) }
    }

    /// An already-finalized handle.
    pub fn detached() -> (r: WriterHandle)
        ensures
            r.wf(),
            r.finalized(),
    {
        WriterHandle { sink: None }
    }

    /// The callback-side write. `lock_acquired` is the outcome of the
    /// caller's non-blocking lock attempt: when the lock was contended the
    /// buffer is dropped rather than stalling the audio callback, and after
    /// finalize the call changes nothing, so a write can never block, panic,
    /// or grow a closed sink.
    pub fn try_write(&mut self, buf: &SampleBuffer, lock_acquired: bool) -> (accepted: bool)
        requires
            old(self).wf(),
        ensures
            final(self).wf(),
            !lock_acquired || old(self).finalized() ==> *final(self) == *old(self) && !accepted,
            lock_acquired && !old(self).finalized() ==> {
                let w = old(self).sink.unwrap();
                &&& accepted == w.spec_accepts(*buf)
                &&& accepted ==> final(self).sink is Some && final(self).sink.unwrap().header
                    == w.header && final(self).sink.unwrap().data@ == w.data@ + buf.values()
                    && final(self).sink.unwrap().samples_written == w.samples_written
                    + buf.values().len()
                &&& !accepted ==> *final(self) == *old(self)
            },
    {
        if !lock_acquired {
            return false;
        }
        match &mut self.sink {
            Some(writer) => writer.write(buf),
            None => false,
        }
    }

    /// The controlling-thread finalize: takes the sink out exactly once.
    /// A second call finds nothing and returns `None`.
    pub fn take_for_finalize(&mut self) -> (r: Option<StreamWriter>)
        requires
            old(self).wf(),
        ensures
            final(self).wf(),
            final(self).finalized(),
            r == old(self).sink,
    {
        self.sink.take()
    }
}

} // verus!
