//! Sample encodings, stream configurations and the sink header.
//!
//! A capture session negotiates a configuration with the hardware, keeps it
//! immutable afterwards, and derives from it the header that the sink writes
//! before any sample data.

use vstd::prelude::*;

verus! {

/// The sample encodings the capture pipeline supports on its write path.
#[derive(Clone, Copy, PartialEq, Eq, Structural, Debug)]
pub enum SampleEncoding {
    Int8,
    Int16,
    Int32,
    Float32,
}

/// Every sample format an input device may report during negotiation.
/// Only four of them are supported by the pipeline; observing any other one
/// is an unsupported-format condition.
#[derive(Clone, Copy, PartialEq, Eq, Structural, Debug)]
pub enum HardwareSampleFormat {
    I8,
    I16,
    I32,
    I64,
    U8,
    U16,
    U32,
    U64,
    F32,
    F64,
}

/// The two sample interpretation tags a sink header can declare.
#[derive(Clone, Copy, PartialEq, Eq, Structural, Debug)]
pub enum SinkFormatTag {
    Int,
    Float,
}

/// A negotiated stream configuration. Immutable once a session starts.
#[derive(Clone, Copy, PartialEq, Eq, Structural, Debug)]
pub struct StreamConfig {
    pub channel_count: u16,
    pub sample_rate: u32,
    pub sample_encoding: SampleEncoding,
}

/// The configuration reported by the hardware before negotiation.
#[derive(Clone, Copy, PartialEq, Eq, Structural, Debug)]
pub struct HardwareConfig {
    pub channel_count: u16,
    pub sample_rate: u32,
    pub sample_format: HardwareSampleFormat,
}

/// The fixed header the sink writes before any sample data.
#[derive(Clone, Copy, PartialEq, Eq, Structural, Debug)]
pub struct SinkHeader {
    pub channels: u16,
    pub sample_rate: u32,
    pub bits_per_sample: u16,
    pub sample_format: SinkFormatTag,
}

impl SampleEncoding {
    /// Width of one sample of this encoding, in bits.
    pub open spec fn spec_bits(self) -> u16 {
        match self {
            SampleEncoding::Int8 => 8,
            SampleEncoding::Int16 => 16,
            SampleEncoding::Int32 => 32,
            SampleEncoding::Float32 => 32,
        }
    }

    /// Whether samples of this encoding are floating point.
    pub open spec fn spec_is_float(self) -> bool {
        self is Float32
    }

    pub fn bits_per_sample(self) -> (r: u16)
        ensures
            r == self.spec_bits(),
    {
        match self {
            SampleEncoding::Int8 => 8,
            SampleEncoding::Int16 => 16,
            SampleEncoding::Int32 => 32,
            SampleEncoding::Float32 => 32,
        }
    }

    /// The interpretation tag the sink header declares for this encoding.
    pub fn format_tag(self) -> (r: SinkFormatTag)
        ensures
            r == (if self.spec_is_float() {
                SinkFormatTag::Float
            } else {
                SinkFormatTag::Int
            }),
    {
        match self {
            SampleEncoding::Float32 => SinkFormatTag::Float,
            _ => SinkFormatTag::Int,
        }
    }
}

/// The supported encoding a hardware format maps to, if any.
pub open spec fn spec_encoding_of(f: HardwareSampleFormat) -> Option<SampleEncoding> {
    match f {
        HardwareSampleFormat::I8 => Some(SampleEncoding::Int8),
        HardwareSampleFormat::I16 => Some(SampleEncoding::Int16),
        HardwareSampleFormat::I32 => Some(SampleEncoding::Int32),
        HardwareSampleFormat::F32 => Some(SampleEncoding::Float32),
        _ => None,
    }
}

/// Maps a reported hardware format to the supported encoding the pipeline
/// records it as; `None` for every format outside the supported four.
pub fn encoding_of(f: HardwareSampleFormat) -> (r: Option<SampleEncoding>)
    ensures
        r == spec_encoding_of(f),
{
    match f {
        HardwareSampleFormat::I8 => Some(SampleEncoding::Int8),
        HardwareSampleFormat::I16 => Some(SampleEncoding::Int16),
        HardwareSampleFormat::I32 => Some(SampleEncoding::Int32),
        HardwareSampleFormat::F32 => Some(SampleEncoding::Float32),
        _ => None,
    }
}

/// The header a given configuration derives, as a spec-level value.
pub open spec fn spec_header_from_config(config: StreamConfig) -> SinkHeader {
    SinkHeader {
        channels: config.channel_count,
        sample_rate: config.sample_rate,
        bits_per_sample: config.sample_encoding.spec_bits(),
        sample_format: if config.sample_encoding.spec_is_float() {
            SinkFormatTag::Float
        } else {
            SinkFormatTag::Int
        },
    }
}

/// Derives the sink header from a negotiated configuration: channel count and
/// rate are taken over unchanged, the bit depth is the encoding's width, and
/// the tag says whether samples are integers or floats.
pub fn header_from_config(config: &StreamConfig) -> (r: SinkHeader)
    ensures
        r == spec_header_from_config(*config),
{
    SinkHeader {
        channels: config.channel_count,
        sample_rate: config.sample_rate,
        bits_per_sample: config.sample_encoding.bits_per_sample(),
        sample_format: config.sample_encoding.format_tag(),
    }
}

} // verus!
