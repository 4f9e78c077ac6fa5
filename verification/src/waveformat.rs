//! Wave formats: what Windows says of a stream's samples, and what that means.
use crate::config::{
    FrameCount, SampleFormat, SampleRate, SupportedBufferSize, SupportedStreamConfig,
};
use vstd::prelude::*;

verus! {

/// `WAVE_FORMAT_PCM`: integer samples.
pub const WAVE_FORMAT_PCM: u16 = 1;

/// `WAVE_FORMAT_IEEE_FLOAT`: floating-point samples.
pub const WAVE_FORMAT_IEEE_FLOAT: u16 = 3;

/// `WAVE_FORMAT_EXTENSIBLE`: the sub-format says what the samples are.
pub const WAVE_FORMAT_EXTENSIBLE: u16 = 0xFFFE;

/// A globally unique identifier.
#[derive(Clone, Copy, Debug)]
pub struct Guid {
    pub data1: u32,
    pub data2: u16,
    pub data3: u16,
    pub data4: [u8; 8],
}

/// Compares two identifiers.
pub fn cmp_guid(a: &Guid, b: &Guid) -> (r: bool)
    ensures
        r == (*a == *b),
{
    let mut i: usize = 0;
    if a.data1 != b.data1 || a.data2 != b.data2 || a.data3 != b.data3 {
        return false;
    }
    while i < 8
        invariant
            i <= 8,
            forall|j: int| 0 <= j < i ==> a.data4@[j] == b.data4@[j],
        decreases 8 - i,
    {
        if a.data4[i] != b.data4[i] {
            return false;
        }
        i = i + 1;
    }
    assert(a.data4 =~= b.data4);
    true
}

/// `id` is the sub-format identifier of samples of the given format tag.
pub open spec fn is_subtype(id: Guid, tag: u16) -> bool {
    &&& id.data1 == tag
    &&& id.data2 == 0
    &&& id.data3 == 0x10
    &&& id.data4@ == seq![0x80u8, 0x00, 0x00, 0xAA, 0x00, 0x38, 0x9B, 0x71]
}

/// Returns `KSDATAFORMAT_SUBTYPE_PCM`: integer samples.
pub fn subtype_pcm() -> (id: Guid)
    ensures
        is_subtype(id, WAVE_FORMAT_PCM),
{
    let id = Guid {
        data1: 1,
        data2: 0,
        data3: 0x10,
        data4: [0x80, 0x00, 0x00, 0xAA, 0x00, 0x38, 0x9B, 0x71],
    };
    assert(id.data4@ =~= seq![0x80u8, 0x00, 0x00, 0xAA, 0x00, 0x38, 0x9B, 0x71]);
    id
}

/// Returns `KSDATAFORMAT_SUBTYPE_IEEE_FLOAT`: floating-point samples.
pub fn subtype_ieee_float() -> (id: Guid)
    ensures
        is_subtype(id, WAVE_FORMAT_IEEE_FLOAT),
{
    let id = Guid {
        data1: 3,
        data2: 0,
        data3: 0x10,
        data4: [0x80, 0x00, 0x00, 0xAA, 0x00, 0x38, 0x9B, 0x71],
    };
    assert(id.data4@ =~= seq![0x80u8, 0x00, 0x00, 0xAA, 0x00, 0x38, 0x9B, 0x71]);
    id
}

/// There is one sub-format identifier for each format tag.
proof fn lemma_subtype_unique(a: Guid, b: Guid, tag: u16)
    requires
        is_subtype(a, tag),
        is_subtype(b, tag),
    ensures
        a == b,
{
    assert(a.data4 =~= b.data4);
}

/// What a `WAVEFORMATEX` says of a stream, with the sub-format of the
/// `WAVEFORMATEXTENSIBLE` that it is part of where the tag says that it is part of one.
#[derive(Clone, Copy, Debug)]
pub struct WaveFormat {
    /// `wFormatTag`
    pub format_tag: u16,
    /// `nChannels`
    pub channels: u16,
    /// `nSamplesPerSec`
    pub samples_per_sec: u32,
    /// `wBitsPerSample`
    pub bits_per_sample: u16,
    /// `SubFormat`
    pub sub_format: Option<Guid>,
}

impl WaveFormat {
    /// An extensible format has a sub-format.
    pub open spec fn wf(self) -> bool {
        self.format_tag == WAVE_FORMAT_EXTENSIBLE ==> self.sub_format is Some
    }

    /// The samples are integers.
    pub open spec fn is_integer(self) -> bool {
        ||| self.format_tag == WAVE_FORMAT_PCM
        ||| self.format_tag == WAVE_FORMAT_EXTENSIBLE && is_subtype(
            self.sub_format->0,
            WAVE_FORMAT_PCM,
        )
    }

    /// The samples are floating-point numbers.
    pub open spec fn is_float(self) -> bool {
        ||| self.format_tag == WAVE_FORMAT_IEEE_FLOAT
        ||| self.format_tag == WAVE_FORMAT_EXTENSIBLE && is_subtype(
            self.sub_format->0,
            WAVE_FORMAT_IEEE_FLOAT,
        )
    }

    /// The sample format that the wave format stands for. Integers of more than sixteen
    /// bits are known only from an extensible format.
    pub open spec fn spec_sample_format(self) -> Option<SampleFormat> {
        let wide = self.format_tag == WAVE_FORMAT_EXTENSIBLE;
        if self.is_integer() {
            match self.bits_per_sample {
                8 => Some(SampleFormat::U8),
                16 => Some(SampleFormat::I16),
                24 if wide => Some(SampleFormat::I24),
                32 if wide => Some(SampleFormat::I32),
                64 if wide => Some(SampleFormat::I64),
                _ => None,
            }
        } else if self.is_float() && self.bits_per_sample == 32 {
            Some(SampleFormat::F32)
        } else {
            None
        }
    }

    /// Returns the sample format that the wave format stands for, where it is one that
    /// streams can have.
    pub fn sample_format(&self) -> (r: Option<SampleFormat>)
        requires
            self.wf(),
        ensures
            r == self.spec_sample_format(),
    {
        match (self.bits_per_sample, self.format_tag) {
            (8, WAVE_FORMAT_PCM) => Some(SampleFormat::U8),
            (16, WAVE_FORMAT_PCM) => Some(SampleFormat::I16),
            (32, WAVE_FORMAT_IEEE_FLOAT) => Some(SampleFormat::F32),
            (n_bits, WAVE_FORMAT_EXTENSIBLE) => {
                let sub: Guid = self.sub_format.unwrap();
                let pcm: Guid = subtype_pcm();
                let ieee_float: Guid = subtype_ieee_float();
                proof {
                    if is_subtype(sub, WAVE_FORMAT_PCM) {
                        lemma_subtype_unique(sub, pcm, WAVE_FORMAT_PCM);
                    }
                    if is_subtype(sub, WAVE_FORMAT_IEEE_FLOAT) {
                        lemma_subtype_unique(sub, ieee_float, WAVE_FORMAT_IEEE_FLOAT);
                    }
                }
                if cmp_guid(&sub, &pcm) {
                    match n_bits {
                        8 => Some(SampleFormat::U8),
                        16 => Some(SampleFormat::I16),
                        24 => Some(SampleFormat::I24),
                        32 => Some(SampleFormat::I32),
                        64 => Some(SampleFormat::I64),
                        _ => None,
                    }
                } else if n_bits == 32 && cmp_guid(&sub, &ieee_float) {
                    Some(SampleFormat::F32)
                } else {
                    None
                }
            },
            _ => None,
        }
    }
}

/// Tells whether the device has to be asked for its buffer limits: they matter only where
/// the wave format stands for a configuration.
pub fn needs_buffer_limits(wave: &WaveFormat) -> (r: bool)
    requires
        wave.wf(),
    ensures
        r == (wave.spec_sample_format() is Some),
{
    wave.sample_format().is_some()
}

/// The quotient rounded toward zero.
pub open spec fn div_toward_zero(a: int, b: int) -> int {
    if a >= 0 {
        a / b
    } else {
        -((-a) / b)
    }
}

/// The number of frames that a stream of `sample_rate` plays in `duration` units of 100
/// nanoseconds.
pub open spec fn frames_in(duration: int, sample_rate: int) -> int {
    div_toward_zero(duration * sample_rate * 100, 1_000_000_000)
}

/// The duration is counted without leaving 64 bits.
pub open spec fn duration_fits(duration: i64, sample_rate: u32) -> bool {
    i64::MIN <= duration * sample_rate * 100 <= i64::MAX
}

/// Counts the frames in a buffer of the given duration, in units of 100 nanoseconds. Of
/// a number of frames that 32 bits do not hold, the lower 32 bits are kept.
pub fn buffer_duration_to_frames(buffer_duration: i64, sample_rate: u32) -> (frames: FrameCount)
    requires
        duration_fits(buffer_duration, sample_rate),
    ensures
        frames == frames_in(buffer_duration as int, sample_rate as int) % 0x1_0000_0000,
{
    let ticks: i64 = buffer_duration * (sample_rate as i64) * 100;
    let count: i64 = ticks / 1_000_000_000;
    let frames: u32 = #[verifier::truncate] (count as u32);
    assert(frames as int == count as int % 0x1_0000_0000) by (bit_vector)
        requires
            frames == count as u32,
    ;
    frames
}

/// Tells whether a duration can be turned into frames.
pub fn buffer_duration_fits(buffer_duration: i64, sample_rate: u32) -> (r: bool)
    ensures
        r == duration_fits(buffer_duration, sample_rate),
{
    match buffer_duration.checked_mul(sample_rate as i64) {
        Some(ticks) => ticks.checked_mul(100).is_some(),
        None => false,
    }
}

/// The frames that each limit of a buffer's duration stands for. A device without limits
/// takes a buffer of any size.
pub open spec fn buffer_size_for(
    limits: Option<(i64, i64)>,
    sample_rate: u32,
) -> SupportedBufferSize {
    match limits {
        Some((min, max)) => SupportedBufferSize::Range {
            min: (frames_in(min as int, sample_rate as int) % 0x1_0000_0000) as u32,
            max: (frames_in(max as int, sample_rate as int) % 0x1_0000_0000) as u32,
        },
        None => SupportedBufferSize::Range { min: 0, max: u32::MAX },
    }
}

/// Both limits can be turned into frames.
pub open spec fn limits_fit(limits: Option<(i64, i64)>, sample_rate: u32) -> bool {
    limits matches Some((min, max)) ==> duration_fits(min, sample_rate) && duration_fits(
        max,
        sample_rate,
    )
}

/// The configuration that a wave format and the device's buffer limits stand for.
pub open spec fn config_for(
    wave: WaveFormat,
    limits: Option<(i64, i64)>,
) -> Option<SupportedStreamConfig> {
    match wave.spec_sample_format() {
        Some(sample_format) => Some(
            SupportedStreamConfig {
                channels: wave.channels,
                sample_rate: SampleRate(wave.samples_per_sec),
                buffer_size: buffer_size_for(limits, wave.samples_per_sec),
                sample_format,
            },
        ),
        None => None,
    }
}

/// Returns the configuration that a wave format stands for. `limits` are the least and
/// the greatest duration of a buffer, where the hardware sets any: only offloaded audio
/// does. There is no configuration where the samples are of a kind that streams cannot
/// have; the limits do not matter then.
pub fn format_from_waveformatex(
    wave: &WaveFormat,
    limits: Option<(i64, i64)>,
) -> (r: Option<SupportedStreamConfig>)
    requires
        wave.wf(),
        wave.spec_sample_format() is Some ==> limits_fit(limits, wave.samples_per_sec),
    ensures
        r == config_for(*wave, limits),
{
    let sample_format: SampleFormat = match wave.sample_format() {
        Some(sample_format) => sample_format,
        None => {
            return None;
        },
    };
    let sample_rate = SampleRate(wave.samples_per_sec);
    let buffer_size = match limits {
        Some((min_buffer_duration, max_buffer_duration)) => SupportedBufferSize::Range {
            min: buffer_duration_to_frames(min_buffer_duration, sample_rate.0),
            max: buffer_duration_to_frames(max_buffer_duration, sample_rate.0),
        },
        None => SupportedBufferSize::Range { min: 0, max: u32::MAX },
    };
    Some(
        SupportedStreamConfig { channels: wave.channels, sample_rate, buffer_size, sample_format },
    )
}

/// What rounding toward zero leaves over is less than the divisor, and has the sign of the
/// dividend.
pub(crate) proof fn lemma_div_toward_zero(a: int, b: int)
    requires
        b > 0,
    ensures
        a >= 0 ==> b * div_toward_zero(a, b) <= a < b * div_toward_zero(a, b) + b,
        a <= 0 ==> b * div_toward_zero(a, b) - b < a <= b * div_toward_zero(a, b),
{
    let m = if a >= 0 {
        a
    } else {
        -a
    };
    let q = m / b;
    assert(b * q <= m < b * q + b) by (nonlinear_arith)
        requires
            b > 0,
            q == m / b,
    ;
    assert(b * (-q) == -(b * q)) by (nonlinear_arith);
}

/// A buffer of whole seconds holds as many frames for each of them as the sample rate
/// says.
pub proof fn lemma_frames_of_whole_seconds(seconds: int, sample_rate: u32)
    requires
        seconds >= 0,
    ensures
        frames_in(seconds * 10_000_000, sample_rate as int) == seconds * sample_rate,
{
    let n = seconds * sample_rate;
    assert(seconds * 10_000_000 * sample_rate * 100 == n * 1_000_000_000) by (nonlinear_arith)
        requires
            n == seconds * sample_rate,
    ;
    assert(n >= 0) by (nonlinear_arith)
        requires
            n == seconds * sample_rate,
            seconds >= 0,
            sample_rate >= 0,
    ;
}

/// A buffer never holds fewer frames at a higher sample rate.
pub proof fn lemma_frames_monotone_in_rate(duration: int, low: u32, high: u32)
    requires
        duration >= 0,
        low <= high,
    ensures
        frames_in(duration, low as int) <= frames_in(duration, high as int),
{
    assert(0 <= duration * low <= duration * high) by (nonlinear_arith)
        requires
            duration >= 0,
            0 <= low <= high,
    ;
}

/// A longer buffer never holds fewer frames: the limits of a device keep their order.
pub proof fn lemma_frames_monotone(min: int, max: int, sample_rate: u32)
    requires
        min <= max,
    ensures
        frames_in(min, sample_rate as int) <= frames_in(max, sample_rate as int),
{
    assert(min * sample_rate <= max * sample_rate) by (nonlinear_arith)
        requires
            min <= max,
            sample_rate >= 0,
    ;
}

} // verus!
