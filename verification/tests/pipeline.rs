use audio_capture::codec::{convert_samples, SampleBuffer};
use audio_capture::encoding::{
    encoding_of, header_from_config, HardwareConfig, HardwareSampleFormat, SampleEncoding,
    SinkFormatTag, SinkHeader, StreamConfig,
};
use audio_capture::session::{
    record_synthetic, CaptureError, CaptureSession, frames_in_window, SessionState,
};
use audio_capture::writer::{StreamWriter, WriterHandle};

fn supported_config(format: HardwareSampleFormat) -> HardwareConfig {
    HardwareConfig { channel_count: 2, sample_rate: 48000, sample_format: format }
}

#[test]
fn encoding_of_supported_formats() {
    assert_eq!(encoding_of(HardwareSampleFormat::I8), Some(SampleEncoding::Int8));
    assert_eq!(encoding_of(HardwareSampleFormat::I16), Some(SampleEncoding::Int16));
    assert_eq!(encoding_of(HardwareSampleFormat::I32), Some(SampleEncoding::Int32));
    assert_eq!(encoding_of(HardwareSampleFormat::F32), Some(SampleEncoding::Float32));
}

#[test]
fn encoding_of_unsupported_formats() {
    assert_eq!(encoding_of(HardwareSampleFormat::I64), None);
    assert_eq!(encoding_of(HardwareSampleFormat::U8), None);
    assert_eq!(encoding_of(HardwareSampleFormat::U16), None);
    assert_eq!(encoding_of(HardwareSampleFormat::U32), None);
    assert_eq!(encoding_of(HardwareSampleFormat::U64), None);
    assert_eq!(encoding_of(HardwareSampleFormat::F64), None);
}

#[test]
fn header_derivation_int16() {
    let config = StreamConfig {
        channel_count: 2,
        sample_rate: 44100,
        sample_encoding: SampleEncoding::Int16,
    };
    let header = header_from_config(&config);
    assert_eq!(header.channels, 2);
    assert_eq!(header.sample_rate, 44100);
    assert_eq!(header.bits_per_sample, 16);
    assert_eq!(header.sample_format, SinkFormatTag::Int);
}

#[test]
fn header_derivation_float32() {
    let config = StreamConfig {
        channel_count: 1,
        sample_rate: 96000,
        sample_encoding: SampleEncoding::Float32,
    };
    let header = header_from_config(&config);
    assert_eq!(header.channels, 1);
    assert_eq!(header.sample_rate, 96000);
    assert_eq!(header.bits_per_sample, 32);
    assert_eq!(header.sample_format, SinkFormatTag::Float);
}

#[test]
fn codec_widens_exactly() {
    let src = SampleBuffer::Int8(vec![0, 1, -1, 127, -128]);
    let out = convert_samples(&src, SampleEncoding::Int16).unwrap();
    match out {
        SampleBuffer::Int16(v) => assert_eq!(v, vec![0, 256, -256, 32512, -32768]),
        _ => panic!("wrong encoding"),
    }
    let src = SampleBuffer::Int16(vec![0, 1, -1, 32767, -32768]);
    let out = convert_samples(&src, SampleEncoding::Int32).unwrap();
    match out {
        SampleBuffer::Int32(v) => {
            assert_eq!(v, vec![0, 65536, -65536, 2147418112, -2147483648])
        }
        _ => panic!("wrong encoding"),
    }
}

#[test]
fn codec_narrows_with_floor() {
    let src = SampleBuffer::Int16(vec![0, 255, 256, -1, -256, -300, 32767, -32768]);
    let out = convert_samples(&src, SampleEncoding::Int8).unwrap();
    match out {
        SampleBuffer::Int8(v) => assert_eq!(v, vec![0, 0, 1, -1, -1, -2, 127, -128]),
        _ => panic!("wrong encoding"),
    }
    let src = SampleBuffer::Int32(vec![65536, -65537, 2147483647]);
    let out = convert_samples(&src, SampleEncoding::Int16).unwrap();
    match out {
        SampleBuffer::Int16(v) => assert_eq!(v, vec![1, -2, 32767]),
        _ => panic!("wrong encoding"),
    }
}

#[test]
fn codec_round_trip_is_identity_for_widening() {
    let original: Vec<i8> = vec![-128, -37, 0, 1, 90, 127];
    let wide = convert_samples(&SampleBuffer::Int8(original.clone()), SampleEncoding::Int32)
        .unwrap();
    let back = convert_samples(&wide, SampleEncoding::Int8).unwrap();
    match back {
        SampleBuffer::Int8(v) => assert_eq!(v, original),
        _ => panic!("wrong encoding"),
    }
}

#[test]
fn codec_identity_keeps_samples() {
    let src = SampleBuffer::Int32(vec![7, -9, 2147483647]);
    let out = convert_samples(&src, SampleEncoding::Int32).unwrap();
    match out {
        SampleBuffer::Int32(v) => assert_eq!(v, vec![7, -9, 2147483647]),
        _ => panic!("wrong encoding"),
    }
    let src = SampleBuffer::Float32Bits(vec![0, 0x3F80_0000, 0xBF80_0000]);
    let out = convert_samples(&src, SampleEncoding::Float32).unwrap();
    match out {
        SampleBuffer::Float32Bits(v) => assert_eq!(v, vec![0, 0x3F80_0000, 0xBF80_0000]),
        _ => panic!("wrong encoding"),
    }
}

#[test]
fn codec_handles_empty_buffers() {
    let out = convert_samples(&SampleBuffer::Int8(Vec::new()), SampleEncoding::Int32).unwrap();
    match out {
        SampleBuffer::Int32(v) => assert!(v.is_empty()),
        _ => panic!("wrong encoding"),
    }
    let header = SinkHeader {
        channels: 1,
        sample_rate: 8000,
        bits_per_sample: 32,
        sample_format: SinkFormatTag::Int,
    };
    let mut writer = StreamWriter::open(header);
    assert!(writer.write(&SampleBuffer::Int32(Vec::new())));
    assert_eq!(writer.samples_written, 0);
}

#[test]
fn codec_narrows_across_three_octets() {
    let src = SampleBuffer::Int32(vec![16777216, -16777217, 0]);
    let out = convert_samples(&src, SampleEncoding::Int8).unwrap();
    match out {
        SampleBuffer::Int8(v) => assert_eq!(v, vec![1, -2, 0]),
        _ => panic!("wrong encoding"),
    }
}

#[test]
fn codec_refuses_int_float_rescale() {
    assert!(convert_samples(&SampleBuffer::Int16(vec![1]), SampleEncoding::Float32).is_none());
    assert!(
        convert_samples(&SampleBuffer::Float32Bits(vec![1]), SampleEncoding::Int16).is_none()
    );
}

#[test]
fn writer_accepts_matching_buffers_only() {
    let header = SinkHeader {
        channels: 2,
        sample_rate: 48000,
        bits_per_sample: 16,
        sample_format: SinkFormatTag::Int,
    };
    let mut writer = StreamWriter::open(header);
    assert!(writer.write(&SampleBuffer::Int16(vec![1, 2, 3, 4])));
    assert!(!writer.write(&SampleBuffer::Int8(vec![1, 2])));
    assert!(!writer.write(&SampleBuffer::Float32Bits(vec![0])));
    assert_eq!(writer.samples_written, 4);
    assert_eq!(writer.frames_written(), 2);
}

#[test]
fn write_after_finalize_is_noop() {
    let header = SinkHeader {
        channels: 1,
        sample_rate: 8000,
        bits_per_sample: 16,
        sample_format: SinkFormatTag::Int,
    };
    let mut handle = WriterHandle::attach(StreamWriter::open(header));
    assert!(handle.try_write(&SampleBuffer::Int16(vec![5, 6]), true));
    let taken = handle.take_for_finalize();
    assert_eq!(taken.as_ref().unwrap().samples_written, 2);
    // the sink is gone: a later write attempt accepts nothing and the
    // accounted size is unchanged
    assert!(!handle.try_write(&SampleBuffer::Int16(vec![7]), true));
    assert!(handle.sink.is_none());
    // a second finalize finds nothing
    assert!(handle.take_for_finalize().is_none());
}

#[test]
fn contended_lock_drops_buffer() {
    let header = SinkHeader {
        channels: 1,
        sample_rate: 8000,
        bits_per_sample: 16,
        sample_format: SinkFormatTag::Int,
    };
    let mut handle = WriterHandle::attach(StreamWriter::open(header));
    assert!(!handle.try_write(&SampleBuffer::Int16(vec![5]), false));
    assert_eq!(handle.sink.as_ref().unwrap().samples_written, 0);
}

#[test]
fn header_drives_a_real_sink() {
    // the header the library derives configures the real sink, and the
    // model's accounting matches what the sink reports having accepted
    let config = StreamConfig {
        channel_count: 2,
        sample_rate: 44100,
        sample_encoding: SampleEncoding::Int16,
    };
    let header = header_from_config(&config);
    let spec = hound::WavSpec {
        channels: header.channels,
        sample_rate: header.sample_rate,
        bits_per_sample: header.bits_per_sample,
        sample_format: match header.sample_format {
            SinkFormatTag::Int => hound::SampleFormat::Int,
            SinkFormatTag::Float => hound::SampleFormat::Float,
        },
    };
    let mut model = StreamWriter::open(header);
    let cursor = std::io::Cursor::new(Vec::new());
    let mut sink = hound::WavWriter::new(cursor, spec).unwrap();
    let buffer = SampleBuffer::Int16(vec![100, -100, 2000, -2000]);
    assert!(model.write(&buffer));
    match &buffer {
        SampleBuffer::Int16(v) => {
            for s in v {
                sink.write_sample(*s).unwrap();
            }
        }
        _ => unreachable!(),
    }
    assert_eq!(u64::from(sink.len()), model.samples_written);
    assert_eq!(u64::from(sink.duration()), model.frames_written());
    assert!(sink.finalize().is_ok());
}

#[test]
fn session_no_device() {
    let mut session = CaptureSession::new();
    assert_eq!(session.configure(false, None), Err(CaptureError::DeviceUnavailable));
    assert_eq!(session.state, SessionState::Idle);
}

#[test]
fn session_no_config() {
    let mut session = CaptureSession::new();
    assert_eq!(session.configure(true, None), Err(CaptureError::ConfigNegotiationError));
    let degenerate = HardwareConfig {
        channel_count: 0,
        sample_rate: 48000,
        sample_format: HardwareSampleFormat::I16,
    };
    assert_eq!(
        session.configure(true, Some(degenerate)),
        Err(CaptureError::ConfigNegotiationError)
    );
}

#[test]
fn session_unsupported_encoding_creates_no_file() {
    let mut session = CaptureSession::new();
    let r = session.configure(true, Some(supported_config(HardwareSampleFormat::F64)));
    assert_eq!(r, Err(CaptureError::UnsupportedSampleEncoding));
    // no sink was ever attached, so no file was created for this session
    assert!(session.writer.sink.is_none());
    assert_eq!(session.state, SessionState::Idle);
}

#[test]
fn session_sink_create_failure() {
    let mut session = CaptureSession::new();
    session.configure(true, Some(supported_config(HardwareSampleFormat::I16))).unwrap();
    assert_eq!(session.open_sink(false), Err(CaptureError::SinkCreateError));
    assert!(session.writer.sink.is_none());
}

#[test]
fn session_stream_start_failure() {
    let mut session = CaptureSession::new();
    session.configure(true, Some(supported_config(HardwareSampleFormat::I16))).unwrap();
    session.open_sink(true).unwrap();
    assert_eq!(session.start(false), Err(CaptureError::StreamStartError));
    assert_eq!(session.state, SessionState::Configuring);
}

#[test]
fn session_finalize_failure_still_closes() {
    let mut session = CaptureSession::new();
    session.configure(true, Some(supported_config(HardwareSampleFormat::I16))).unwrap();
    session.open_sink(true).unwrap();
    session.start(true).unwrap();
    assert_eq!(session.finalize(false), Err(CaptureError::FinalizeError));
    assert_eq!(session.state, SessionState::Closed);
    assert!(session.writer.sink.is_none());
}

#[test]
fn pause_resume_continues_same_sink() {
    let mut session = CaptureSession::new();
    session.configure(true, Some(supported_config(HardwareSampleFormat::I16))).unwrap();
    session.open_sink(true).unwrap();
    session.start(true).unwrap();
    assert!(session.deliver(&SampleBuffer::Int16(vec![1, 2]), true));
    let header_before = session.writer.sink.as_ref().unwrap().header;
    session.pause();
    assert_eq!(session.state, SessionState::Paused);
    // the sink survives the pause untouched
    assert_eq!(session.writer.sink.as_ref().unwrap().samples_written, 2);
    session.resume();
    assert_eq!(session.state, SessionState::Streaming);
    // writing continues on the same sink: same header, samples keep adding up
    assert_eq!(session.writer.sink.as_ref().unwrap().header, header_before);
    assert!(session.deliver(&SampleBuffer::Int16(vec![3, 4]), true));
    assert_eq!(session.writer.sink.as_ref().unwrap().samples_written, 4);
    assert_eq!(session.finalize(true), Ok(2));
}

#[test]
fn synthetic_recording_counts_every_delivered_frame() {
    let hw = HardwareConfig {
        channel_count: 2,
        sample_rate: 48000,
        sample_format: HardwareSampleFormat::I16,
    };
    // 100 ms of 10 ms ticks at 480 frames each, 240 frames draining in
    assert_eq!(record_synthetic(hw, 10, 480, 240), Ok(5040));
    let declared_ms = 5040 * 1000 / 48000;
    assert!(100 <= declared_ms && declared_ms <= 120);
}

#[test]
fn synthetic_recording_rejects_unsupported_format() {
    let hw = HardwareConfig {
        channel_count: 2,
        sample_rate: 48000,
        sample_format: HardwareSampleFormat::U8,
    };
    assert_eq!(record_synthetic(hw, 10, 480, 0), Err(CaptureError::UnsupportedSampleEncoding));
    let degenerate = HardwareConfig {
        channel_count: 0,
        sample_rate: 48000,
        sample_format: HardwareSampleFormat::I16,
    };
    assert_eq!(
        record_synthetic(degenerate, 10, 480, 0),
        Err(CaptureError::ConfigNegotiationError)
    );
}

#[test]
fn bounded_recording_declares_duration_in_drain_window() {
    // a synthetic stream with deterministic timing: 48000 frames per second
    // in 10 ms buffers, recording for 100 ms with a 20 ms drain delay
    let rate: u32 = 48000;
    let tick_frames = frames_in_window(rate, 10);
    assert_eq!(tick_frames, 480);
    let mut session = CaptureSession::new();
    let hw = HardwareConfig {
        channel_count: 2,
        sample_rate: rate,
        sample_format: HardwareSampleFormat::I16,
    };
    session.configure(true, Some(hw)).unwrap();
    session.open_sink(true).unwrap();
    session.start(true).unwrap();
    // 10 ticks of the configured duration
    for _ in 0..10 {
        let buffer: Vec<i16> = vec![0; (tick_frames as usize) * 2];
        assert!(session.deliver(&SampleBuffer::Int16(buffer), true));
    }
    // one in-flight buffer lands during the drain delay
    let buffer: Vec<i16> = vec![0; (tick_frames as usize) * 2];
    assert!(session.deliver(&SampleBuffer::Int16(buffer), true));
    let frames = session.finalize(true).unwrap();
    // declared duration in milliseconds, between 100 and 100 + 20
    let declared_ms = frames * 1000 / (rate as u64);
    assert_eq!(frames, 5280);
    assert_eq!(declared_ms, 110);
    assert!(100 <= declared_ms && declared_ms <= 120);
}
