//! Stream configurations: sample formats and rates, channel counts and buffer sizes.
use vstd::prelude::*;

verus! {

/// Number of channels of a stream.
pub type ChannelCount = u16;

/// Number of frames, where a frame holds one sample for each channel.
pub type FrameCount = u32;

/// Number of frames per second.
#[derive(Clone, Copy, Debug, PartialEq, Eq, Structural)]
pub struct SampleRate(pub u32);

/// How one sample is stored.
#[derive(Clone, Copy, Debug, PartialEq, Eq, Structural)]
#[non_exhaustive]
pub enum SampleFormat {
    I8,
    I16,
    I24,
    I32,
    I64,
    U8,
    U16,
    U24,
    U32,
    U64,
    F32,
    F64,
}

/// The buffer size that a stream asks for.
#[derive(Clone, Copy, Debug, PartialEq, Eq, Structural)]
pub enum BufferSize {
    Default,
    Fixed(FrameCount),
}

/// The configuration that a stream is opened with.
#[derive(Clone, Copy, Debug, PartialEq, Eq, Structural)]
pub struct StreamConfig {
    pub channels: ChannelCount,
    pub sample_rate: SampleRate,
    pub buffer_size: BufferSize,
}

/// The buffer sizes that a device accepts.
#[derive(Clone, Copy, Debug, PartialEq, Eq, Structural)]
pub enum SupportedBufferSize {
    /// From `min` to `max` frames, both of them accepted.
    Range { min: FrameCount, max: FrameCount },
    /// The device does not tell.
    Unknown,
}

/// One configuration that a device supports.
#[derive(Clone, Copy, Debug, PartialEq, Eq, Structural)]
pub struct SupportedStreamConfig {
    pub channels: ChannelCount,
    pub sample_rate: SampleRate,
    pub buffer_size: SupportedBufferSize,
    pub sample_format: SampleFormat,
}

/// A range of sample rates that a device supports, with all else fixed.
#[derive(Clone, Copy, Debug, PartialEq, Eq, Structural)]
pub struct SupportedStreamConfigRange {
    pub channels: ChannelCount,
    pub min_sample_rate: SampleRate,
    pub max_sample_rate: SampleRate,
    pub buffer_size: SupportedBufferSize,
    pub sample_format: SampleFormat,
}

/// The sample rates that are tried on every device.
pub open spec fn common_rates() -> Seq<SampleRate> {
    seq![
        SampleRate(5512),
        SampleRate(8000),
        SampleRate(11025),
        SampleRate(16000),
        SampleRate(22050),
        SampleRate(32000),
        SampleRate(44100),
        SampleRate(48000),
        SampleRate(64000),
        SampleRate(88200),
        SampleRate(96000),
        SampleRate(176400),
        SampleRate(192000),
    ]
}

/// Returns the sample rates that are tried on every device.
pub fn common_sample_rates() -> (rates: Vec<SampleRate>)
    ensures
        rates@ == common_rates(),
{
    let rates: Vec<SampleRate> = vec![
        SampleRate(5512),
        SampleRate(8000),
        SampleRate(11025),
        SampleRate(16000),
        SampleRate(22050),
        SampleRate(32000),
        SampleRate(44100),
        SampleRate(48000),
        SampleRate(64000),
        SampleRate(88200),
        SampleRate(96000),
        SampleRate(176400),
        SampleRate(192000),
    ];
    assert(rates@ =~= common_rates());
    rates
}

} // verus!
