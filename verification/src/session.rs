//! Capture session lifecycle.
//!
//! The session is the controlling-thread side of the pipeline: it negotiates
//! a configuration with the reported hardware, opens the sink, starts and
//! pauses delivery, and finalizes exactly once. Every hardware effect —
//! enumerating devices, creating the file, starting the stream, flushing at
//! the end — is performed by the unverified front end, which reports each
//! outcome; the session decides what the outcome means and keeps the
//! recording's state machine and its sample accounting exact.

use vstd::prelude::*;
use crate::codec::{convert_samples, spec_rescale, spec_rescale_supported, SampleBuffer};
use crate::encoding::{
    spec_encoding_of, spec_header_from_config, encoding_of, header_from_config, HardwareConfig,
    SampleEncoding, StreamConfig,
};
use crate::writer::{spec_encoding_matches, StreamWriter, WriterHandle};
use vstd::arithmetic::div_mod::{
    lemma_div_is_ordered, lemma_div_multiples_vanish, lemma_fundamental_div_mod,
};

verus! {

/// The recording lifecycle.
#[derive(Clone, Copy, PartialEq, Eq, Structural, Debug)]
pub enum SessionState {
    Idle,
    Configuring,
    Streaming,
    Paused,
    Finalizing,
    Closed,
}

/// Everything that can end a capture session. All of these are terminal for
/// the session; a caller recovers only by starting over from idle.
#[derive(Clone, Copy, PartialEq, Eq, Structural, Debug)]
pub enum CaptureError {
    DeviceUnavailable,
    ConfigNegotiationError,
    SinkCreateError,
    StreamStartError,
    UnsupportedSampleEncoding,
    FinalizeError,
}

/// A hardware configuration the session can record from: at least one
/// channel, a nonzero rate, and a sample format the codec supports.
pub open spec fn spec_config_usable(hw: HardwareConfig) -> bool {
    &&& 1 <= hw.channel_count
    &&& 1 <= hw.sample_rate
}

/// One recording, from device negotiation to the finalized sink.
pub struct CaptureSession {
    pub state: SessionState,
    pub config: Option<StreamConfig>,
    pub writer: WriterHandle,
}

impl CaptureSession {
    /// The session invariant: the configuration is fixed and usable from
    /// negotiation on, and an open sink always carries the header derived
    /// from it.
    pub open spec fn wf(self) -> bool {
        &&& self.writer.wf()
        &&& self.state is Idle ==> self.config is None && self.writer.finalized()
        &&& !(self.state is Idle) && !(self.state is Closed) ==> {
            &&& self.config is Some
            &&& 1 <= self.config.unwrap().channel_count
            &&& 1 <= self.config.unwrap().sample_rate
        }
        &&& self.writer.sink is Some ==> self.config is Some && self.writer.sink.unwrap().header
            == spec_header_from_config(self.config.unwrap())
        &&& self.state is Streaming || self.state is Paused ==> self.writer.sink is Some
        &&& self.state is Closed ==> self.writer.finalized()
    }

    /// A session that has not touched any hardware: no configuration, no
    /// sink, nothing to clean up.
    pub fn new() -> (r: CaptureSession)
        ensures
            r.wf(),
            r.state is Idle,
            r.config is None,
            r.writer.finalized(),
    {
        CaptureSession { state: SessionState::Idle, config: None, writer: WriterHandle::detached() }
    }

    /// Negotiates the configuration from what the front end found: whether
    /// any input device exists, and the default configuration it reported.
    /// No device means `DeviceUnavailable`; a missing or degenerate
    /// configuration means `ConfigNegotiationError`; a sample format outside
    /// the supported four means `UnsupportedSampleEncoding`, reported before
    /// any sink exists so that no file is ever created for it. On success
    /// the session holds the negotiated configuration, immutably from here
    /// on.
    pub fn configure(&mut self, device_found: bool, hw: Option<HardwareConfig>) -> (r: Result<
        (),
        CaptureError,
    >)
        requires
            old(self).wf(),
            old(self).state is Idle,
        ensures
            final(self).wf(),
            final(self).writer == old(self).writer,
            final(self).writer.finalized(),
            !device_found ==> r == Err::<(), CaptureError>(CaptureError::DeviceUnavailable)
                && *final(self) == *old(self),
            device_found && hw is None ==> r == Err::<(), CaptureError>(
                CaptureError::ConfigNegotiationError,
            ) && *final(self) == *old(self),
            device_found && hw is Some && !spec_config_usable(hw.unwrap()) ==> r == Err::<
                (),
                CaptureError,
            >(CaptureError::ConfigNegotiationError) && *final(self) == *old(self),
            device_found && hw is Some && spec_config_usable(hw.unwrap()) && spec_encoding_of(
                hw.unwrap().sample_format,
            ) is None ==> r == Err::<(), CaptureError>(CaptureError::UnsupportedSampleEncoding)
                && *final(self) == *old(self),
            device_found && hw is Some && spec_config_usable(hw.unwrap()) && spec_encoding_of(
                hw.unwrap().sample_format,
            ) is Some ==> r == Ok::<(), CaptureError>(()) && final(self).state is Configuring
                && final(self).config == Some(
                StreamConfig {
                    channel_count: hw.unwrap().channel_count,
                    sample_rate: hw.unwrap().sample_rate,
                    sample_encoding: spec_encoding_of(hw.unwrap().sample_format).unwrap(),
                },
            ),
    {
        if !device_found {
            return Err(CaptureError::DeviceUnavailable);
        }
        let hw_config: HardwareConfig = match hw {
            Some(c) => c,
            None => {
                return Err(CaptureError::ConfigNegotiationError);
            },
        };
        if hw_config.channel_count < 1 || hw_config.sample_rate < 1 {
            return Err(CaptureError::ConfigNegotiationError);
        }
        let enc = match encoding_of(hw_config.sample_format) {
            Some(e) => e,
            None => {
                return Err(CaptureError::UnsupportedSampleEncoding);
            },
        };
        self.config = Some(
            StreamConfig {
                channel_count: hw_config.channel_count,
                sample_rate: hw_config.sample_rate,
                sample_encoding: enc,
            },
        );
        self.state = SessionState::Configuring;
        Ok(())
    }

    /// Opens the sink once the front end reports whether the file could be
    /// created; a created sink starts with the header derived from the
    /// negotiated configuration and no sample data.
    pub fn open_sink(&mut self, created: bool) -> (r: Result<(), CaptureError>)
        requires
            old(self).wf(),
            old(self).state is Configuring,
            old(self).writer.finalized(),
        ensures
            final(self).wf(),
            final(self).state is Configuring,
            final(self).config == old(self).config,
            !created ==> r == Err::<(), CaptureError>(CaptureError::SinkCreateError) && *final(self)
                == *old(self),
            created ==> r == Ok::<(), CaptureError>(()) && final(self).writer.sink is Some && {
                let w = final(self).writer.sink.unwrap();
                &&& w.header == spec_header_from_config(old(self).config.unwrap())
                &&& w.samples_written == 0
                &&& w.data@ == Seq::<int>::empty()
            },
    {
        if !created {
            return Err(CaptureError::SinkCreateError);
        }
        let config: &StreamConfig = self.config.as_ref().unwrap();
        let header = header_from_config(config);
        self.writer = WriterHandle::attach(StreamWriter::open(header));
        Ok(())
    }

    /// Starts hardware delivery once the front end reports whether the
    /// stream could be started.
    pub fn start(&mut self, stream_started: bool) -> (r: Result<(), CaptureError>)
        requires
            old(self).wf(),
            old(self).state is Configuring,
            old(self).writer.sink is Some,
        ensures
            final(self).wf(),
            !stream_started ==> r == Err::<(), CaptureError>(CaptureError::StreamStartError)
                && *final(self) == *old(self),
            stream_started ==> r == Ok::<(), CaptureError>(()) && final(self).state is Streaming
                && final(self).config == old(self).config && final(self).writer == old(
                self,
            ).writer,
    {
        if !stream_started {
            return Err(CaptureError::StreamStartError);
        }
        self.state = SessionState::Streaming;
        Ok(())
    }

    /// Pauses hardware delivery. The sink is untouched: the same file, the
    /// same header, the same accounted samples.
    pub fn pause(&mut self)
        requires
            old(self).wf(),
            old(self).state is Streaming,
        ensures
            final(self).wf(),
            final(self).state is Paused,
            final(self).config == old(self).config,
            final(self).writer == old(self).writer,
    {
        self.state = SessionState::Paused;
    }

    /// Resumes hardware delivery after a pause, continuing on the same sink:
    /// the header was written once at creation and is never written again.
    pub fn resume(&mut self)
        requires
            old(self).wf(),
            old(self).state is Paused,
        ensures
            final(self).wf(),
            final(self).state is Streaming,
            final(self).config == old(self).config,
            final(self).writer == old(self).writer,
    {
        self.state = SessionState::Streaming;
    }

    /// One hardware buffer arriving on the callback side, with the outcome
    /// of the callback's non-blocking lock attempt. The buffer is converted
    /// to the sink's encoding and appended; a contended lock drops the
    /// buffer, as stalling the callback is the one thing this path must
    /// never do.
    pub fn deliver(&mut self, buf: &SampleBuffer, lock_acquired: bool) -> (accepted: bool)
        requires
            old(self).wf(),
            old(self).state is Streaming,
        ensures
            final(self).wf(),
            final(self).state == old(self).state,
            final(self).config == old(self).config,
            !lock_acquired ==> !accepted && final(self).writer == old(self).writer,
            lock_acquired ==> {
                let cfg = old(self).config.unwrap();
                let w = old(self).writer.sink.unwrap();
                let converted = buf.values().map_values(
                    |v: int| spec_rescale(buf.encoding(), cfg.sample_encoding, v),
                );
                &&& accepted == (spec_rescale_supported(buf.encoding(), cfg.sample_encoding)
                    && w.samples_written + buf.values().len() <= u64::MAX)
                &&& accepted ==> final(self).writer.sink is Some && {
                    let w2 = final(self).writer.sink.unwrap();
                    &&& w2.header == w.header
                    &&& w2.data@ == w.data@ + converted
                    &&& w2.samples_written == w.samples_written + buf.values().len()
                }
                &&& !accepted ==> final(self).writer == old(self).writer
            },
    {
        if !lock_acquired {
            return false;
        }
        let cfg: &StreamConfig = self.config.as_ref().unwrap();
        let target = cfg.sample_encoding;
        let converted: Option<SampleBuffer> = convert_samples(buf, target);
        match converted {
            Some(out) => {
                proof {
                    lemma_header_matches_own_encoding(*cfg);
                }
                self.writer.try_write(&out, true)
            },
            None => false,
        }
    }

    /// Stops the recording: the sink leaves the handle exactly once, so no
    /// later write can reach it, and the front end's flush outcome decides
    /// between the frame count and `FinalizeError`. Either way the session
    /// is closed and the error is not retryable.
    pub fn finalize(&mut self, flush_ok: bool) -> (r: Result<u64, CaptureError>)
        requires
            old(self).wf(),
            old(self).state is Streaming || old(self).state is Paused,
        ensures
            final(self).wf(),
            final(self).state is Closed,
            final(self).writer.finalized(),
            flush_ok ==> r == Ok::<u64, CaptureError>(
                (old(self).writer.sink.unwrap().samples_written as int / old(
                    self,
                ).config.unwrap().channel_count as int) as u64,
            ),
            !flush_ok ==> r == Err::<u64, CaptureError>(CaptureError::FinalizeError),
    {
        self.state = SessionState::Finalizing;
        let taken: Option<StreamWriter> = self.writer.take_for_finalize();
        self.state = SessionState::Closed;
        let writer = taken.unwrap();
        if !flush_ok {
            return Err(CaptureError::FinalizeError);
        }
        Ok(writer.frames_written())
    }
}

/// A buffer of `len` silent samples in encoding `e`, as a deterministic
/// stand-in for one hardware callback's delivery.
pub fn silent_buffer(e: SampleEncoding, len: usize) -> (r: SampleBuffer)
    ensures
        r.encoding() == e,
        r.values().len() == len,
{
    match e {
        SampleEncoding::Int8 => {
            let mut v: Vec<i8> = Vec::new();
            let mut i: usize = 0;
            while i < len
                invariant
                    i <= len,
                    v@.len() == i,
                decreases len - i,
            {
                v.push(0);
                i = i + 1;
            }
            SampleBuffer::Int8(v)
        },
        SampleEncoding::Int16 => {
            let mut v: Vec<i16> = Vec::new();
            let mut i: usize = 0;
            while i < len
                invariant
                    i <= len,
                    v@.len() == i,
                decreases len - i,
            {
                v.push(0);
                i = i + 1;
            }
            SampleBuffer::Int16(v)
        },
        SampleEncoding::Int32 => {
            let mut v: Vec<i32> = Vec::new();
            let mut i: usize = 0;
            while i < len
                invariant
                    i <= len,
                    v@.len() == i,
                decreases len - i,
            {
                v.push(0);
                i = i + 1;
            }
            SampleBuffer::Int32(v)
        },
        SampleEncoding::Float32 => {
            let mut v: Vec<u32> = Vec::new();
            let mut i: usize = 0;
            while i < len
                invariant
                    i <= len,
                    v@.len() == i,
                decreases len - i,
            {
                v.push(0);
                i = i + 1;
            }
            SampleBuffer::Float32Bits(v)
        },
    }
}

/// A whole bounded recording against a synthetic stream with deterministic
/// timing: the stream delivers exactly `frames_per_tick` frames on each of
/// `duration_ticks` ticks of the configured duration, and `drained_frames`
/// more land during the drain delay before finalize. The finalized sink
/// declares exactly the frames the stream delivered — at least the
/// configured duration's worth and at most one drain window more, which is
/// the duration bound `lemma_declared_duration_bounds` states over rates.
#[verifier::loop_isolation(false)]
pub fn record_synthetic(
    hw: HardwareConfig,
    duration_ticks: u32,
    frames_per_tick: u32,
    drained_frames: u32,
) -> (r: Result<u64, CaptureError>)
    requires
        duration_ticks <= 0xFFFF,
        frames_per_tick <= 0xFFFF,
        drained_frames <= 0xFFFF,
        (frames_per_tick as int) * (hw.channel_count as int) <= 0xFFFF_FFFF,
        (drained_frames as int) * (hw.channel_count as int) <= 0xFFFF_FFFF,
    ensures
        !spec_config_usable(hw) ==> r == Err::<u64, CaptureError>(
            CaptureError::ConfigNegotiationError,
        ),
        spec_config_usable(hw) && spec_encoding_of(hw.sample_format) is None ==> r == Err::<
            u64,
            CaptureError,
        >(CaptureError::UnsupportedSampleEncoding),
        spec_config_usable(hw) && spec_encoding_of(hw.sample_format) is Some ==> r == Ok::<
            u64,
            CaptureError,
        >(
            ((duration_ticks as int) * (frames_per_tick as int) + drained_frames as int) as u64,
        ),
{
    let mut session = CaptureSession::new();
    match session.configure(true, Some(hw)) {
        Ok(()) => (),
        Err(e) => {
            return Err(e);
        },
    }
    match session.open_sink(true) {
        Ok(()) => (),
        Err(e) => {
            return Err(e);
        },
    }
    match session.start(true) {
        Ok(()) => (),
        Err(e) => {
            return Err(e);
        },
    }
    let enc = session.config.as_ref().unwrap().sample_encoding;
    let channels: u16 = session.config.as_ref().unwrap().channel_count;
    let tick_samples: usize = (frames_per_tick as usize) * (channels as usize);
    let mut t: u32 = 0;
    while t < duration_ticks
        invariant
            t <= duration_ticks,
            session.wf(),
            session.state is Streaming,
            session.config == Some(
                StreamConfig {
                    channel_count: hw.channel_count,
                    sample_rate: hw.sample_rate,
                    sample_encoding: spec_encoding_of(hw.sample_format).unwrap(),
                },
            ),
            enc == spec_encoding_of(hw.sample_format).unwrap(),
            channels == hw.channel_count,
            tick_samples == (frames_per_tick as int) * (channels as int),
            session.writer.sink is Some,
            session.writer.sink.unwrap().samples_written == t as int * tick_samples as int,
        decreases duration_ticks - t,
    {
        let buffer = silent_buffer(enc, tick_samples);
        proof {
            assert((t as int) * (tick_samples as int) + tick_samples <= 0x1_0000 * 0xFFFF_FFFF)
                by (nonlinear_arith)
                requires
                    0 <= (t as int) && (t as int) < 0x1_0000,
                    0 <= (tick_samples as int) && (tick_samples as int) <= 0xFFFF_FFFF,
            ;
        }
        let accepted = session.deliver(&buffer, true);
        proof {
            assert(accepted);
            assert((t as int + 1) * (tick_samples as int) == t as int * tick_samples as int
                + tick_samples as int) by (nonlinear_arith);
        }
        t = t + 1;
    }
    let drain_samples: usize = (drained_frames as usize) * (channels as usize);
    let drain_buffer = silent_buffer(enc, drain_samples);
    proof {
        assert((duration_ticks as int) * (tick_samples as int) + drain_samples <= 0x1_0000
            * 0xFFFF_FFFF + 0xFFFF_FFFF) by (nonlinear_arith)
            requires
                0 <= (duration_ticks as int) && (duration_ticks as int) <= 0xFFFF,
                0 <= (tick_samples as int) && (tick_samples as int) <= 0xFFFF_FFFF,
                0 <= (drain_samples as int) && (drain_samples as int) <= 0xFFFF_FFFF,
        ;
    }
    let drain_accepted = session.deliver(&drain_buffer, true);
    proof {
        assert(drain_accepted);
    }
    let ghost total_frames = duration_ticks as int * frames_per_tick as int
        + drained_frames as int;
    proof {
        let ch = channels as int;
        assert(duration_ticks as int * (frames_per_tick as int * ch) + drained_frames as int * ch
            == ch * (duration_ticks as int * frames_per_tick as int + drained_frames as int))
            by (nonlinear_arith);
        lemma_div_multiples_vanish(total_frames, ch);
    }
    session.finalize(true)
}

/// The header a configuration derives declares that configuration's own
/// encoding, so a sink always accepts the buffers the session converts for
/// it.
pub proof fn lemma_header_matches_own_encoding(cfg: StreamConfig)
    ensures
        spec_encoding_matches(spec_header_from_config(cfg), cfg.sample_encoding),
{
}

/// Whole frames a deterministic stream delivers in a window: `rate` frames
/// per second for `ms` milliseconds.
pub fn frames_in_window(rate: u32, ms: u64) -> (r: u64)
    requires
        ms <= 0xFFFF_FFFF,
    ensures
        r == (rate as int) * (ms as int) / 1000,
{
    proof {
        assert((rate as int) * (ms as int) <= 0xFFFF_FFFF * 0xFFFF_FFFF) by (nonlinear_arith)
            requires
                rate as int <= 0xFFFF_FFFF && ms as int <= 0xFFFF_FFFF && 0 <= rate as int && 0
                    <= ms as int,
        ;
    }
    ((rate as u64) * ms) / 1000
}

/// Duration accounting for a bounded recording. A recording configured for
/// `duration_ms` captures exactly the hardware rate over that window; the
/// drain window after it lets in-flight buffers land, so it may add up to
/// one window's worth of frames but never more. The finalized sink then
/// declares a duration of at least the configured one and at most the
/// configured one plus the drain delay.
pub proof fn lemma_declared_duration_bounds(
    rate: int,
    duration_ms: int,
    drain_ms: int,
    captured: int,
    drained: int,
)
    requires
        1 <= rate,
        0 <= duration_ms,
        0 <= drain_ms,
        (rate * duration_ms) % 1000 == 0,
        captured == rate * duration_ms / 1000,
        0 <= drained <= rate * drain_ms / 1000,
    ensures
        duration_ms <= (captured + drained) * 1000 / rate <= duration_ms + drain_ms,
{
    let a = rate * duration_ms;
    lemma_fundamental_div_mod(a, 1000);
    assert(1000 * captured == a);
    let b = rate * drain_ms;
    lemma_fundamental_div_mod(b, 1000);
    assert(1000 * (b / 1000) <= b);
    assert(1000 * drained <= 1000 * (b / 1000)) by (nonlinear_arith)
        requires
            drained <= b / 1000,
    ;
    assert((captured + drained) * 1000 == a + 1000 * drained) by (nonlinear_arith)
        requires
            1000 * captured == a,
    ;
    // lower bound
    lemma_div_is_ordered(a, (captured + drained) * 1000, rate);
    lemma_div_multiples_vanish(duration_ms, rate);
    assert(rate * duration_ms == a);
    // upper bound
    assert(a + 1000 * drained <= rate * (duration_ms + drain_ms)) by (nonlinear_arith)
        requires
            1000 * drained <= b,
            a == rate * duration_ms,
            b == rate * drain_ms,
    ;
    lemma_div_is_ordered((captured + drained) * 1000, rate * (duration_ms + drain_ms), rate);
    lemma_div_multiples_vanish(duration_ms + drain_ms, rate);
}

} // verus!
