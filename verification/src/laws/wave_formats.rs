//! Laws on wave formats and the configurations that they stand for.
use crate::config::{SampleFormat, SupportedBufferSize, SupportedStreamConfig};
use crate::waveformat::{
    buffer_duration_fits, buffer_duration_to_frames, cmp_guid, format_from_waveformatex, frames_in,
    lemma_div_toward_zero, needs_buffer_limits, subtype_ieee_float, subtype_pcm, Guid, WaveFormat,
};
use vstd::prelude::*;

verus! {

/// The identifiers of the sub-formats have the numbers that Windows gives them.
pub proof fn lemma_subtype_numbers(pcm: Guid, ieee_float: Guid)
    requires
        call_ensures(subtype_pcm, (), pcm),
        call_ensures(subtype_ieee_float, (), ieee_float),
    ensures
        pcm.data1 == 1 && ieee_float.data1 == 3,
        pcm.data2 == 0 && ieee_float.data2 == 0,
        pcm.data3 == 0x10 && ieee_float.data3 == 0x10,
        pcm.data4@ == seq![0x80u8, 0x00, 0x00, 0xAA, 0x00, 0x38, 0x9B, 0x71],
        ieee_float.data4@ == pcm.data4@,
{
}

/// Two identifiers are the same where each of their parts is.
pub proof fn lemma_same_guid_by_parts(a: Guid, b: Guid, r: bool)
    requires
        call_ensures(cmp_guid, (&a, &b), r),
    ensures
        r <==> a.data1 == b.data1 && a.data2 == b.data2 && a.data3 == b.data3 && a.data4@
            == b.data4@,
{
    if a.data4@ == b.data4@ {
        assert(a.data4 =~= b.data4);
    }
}

/// Plain integer samples are known with 8 and with 16 bits, plain floating-point samples
/// with 32 bits, and no other tag but the extensible one is known.
pub proof fn lemma_plain_sample_formats(wave: WaveFormat, r: Option<SampleFormat>)
    requires
        call_ensures(WaveFormat::sample_format, (&wave,), r),
        wave.format_tag != 0xFFFE,
    ensures
        wave.format_tag == 1 && wave.bits_per_sample == 8 <==> r == Some(SampleFormat::U8),
        wave.format_tag == 1 && wave.bits_per_sample == 16 <==> r == Some(SampleFormat::I16),
        wave.format_tag == 3 && wave.bits_per_sample == 32 <==> r == Some(SampleFormat::F32),
        r matches Some(f) ==> f is U8 || f is I16 || f is F32,
{
}

/// Of an extensible format the sub-format and the bits decide: integer samples are known
/// with 8, 16, 24, 32 and 64 bits, floating-point samples with 32 bits, and no others.
pub proof fn lemma_extensible_sample_formats(
    wave: WaveFormat,
    sub: Guid,
    pcm: Guid,
    ieee_float: Guid,
    r: Option<SampleFormat>,
)
    requires
        call_ensures(WaveFormat::sample_format, (&wave,), r),
        call_ensures(subtype_pcm, (), pcm),
        call_ensures(subtype_ieee_float, (), ieee_float),
        wave.format_tag == 0xFFFE,
        wave.sub_format == Some(sub),
    ensures
        sub == pcm && wave.bits_per_sample == 8 <==> r == Some(SampleFormat::U8),
        sub == pcm && wave.bits_per_sample == 16 <==> r == Some(SampleFormat::I16),
        sub == pcm && wave.bits_per_sample == 24 <==> r == Some(SampleFormat::I24),
        sub == pcm && wave.bits_per_sample == 32 <==> r == Some(SampleFormat::I32),
        sub == pcm && wave.bits_per_sample == 64 <==> r == Some(SampleFormat::I64),
        sub == ieee_float && wave.bits_per_sample == 32 <==> r == Some(SampleFormat::F32),
        r matches Some(f) ==> f is U8 || f is I16 || f is I24 || f is I32 || f is I64 || f is F32,
{
    if sub.data4@ == pcm.data4@ {
        assert(sub.data4 =~= pcm.data4);
        assert(sub.data4 =~= ieee_float.data4);
    }
}

/// A number of frames is the whole part of the frames that the duration holds: one frame
/// more would be longer than the duration. A second is ten million units of duration.
pub proof fn lemma_frames_are_the_whole_part(duration: i64, sample_rate: u32, frames: u32)
    requires
        call_ensures(buffer_duration_to_frames, (duration, sample_rate), frames),
        0 <= duration * sample_rate < 10_000_000 * 0x1_0000_0000,
    ensures
        frames * 10_000_000 <= duration * sample_rate < (frames + 1) * 10_000_000,
{
    lemma_div_toward_zero(duration * sample_rate * 100, 1_000_000_000);
}

/// Frames that 32 bits do not hold are counted modulo their number, and those of a negative
/// duration are as many below zero as the positive duration has above it.
pub proof fn lemma_frames_wrap(duration: int, sample_rate: int, d: i64, s: u32, frames: u32)
    requires
        call_ensures(buffer_duration_to_frames, (d, s), frames),
        d == duration && s == sample_rate,
    ensures
        (frames_in(duration, sample_rate) - frames) % 0x1_0000_0000 == 0,
        frames_in(-duration, sample_rate) == -frames_in(duration, sample_rate),
        duration * sample_rate >= 0 ==> frames_in(duration, sample_rate) * 10_000_000 <= duration
            * sample_rate < (frames_in(duration, sample_rate) + 1) * 10_000_000,
{
    lemma_div_toward_zero(duration * sample_rate * 100, 1_000_000_000);
    assert((-duration) * sample_rate == -(duration * sample_rate)) by (nonlinear_arith);
}

/// A duration can be counted exactly where a hundred times its product with the sample rate
/// stays within 64 bits.
pub proof fn lemma_durations_that_fit(duration: i64, sample_rate: u32, r: bool)
    requires
        call_ensures(buffer_duration_fits, (duration, sample_rate), r),
    ensures
        r <==> -0x8000_0000_0000_0000 <= duration * sample_rate * 100 <= 0x7FFF_FFFF_FFFF_FFFF,
{
}

/// A configuration is made of a wave format exactly where the samples are of a known kind,
/// and it has that kind of samples, and the channels and the sample rate of the wave format,
/// whatever these are.
pub proof fn lemma_configuration_keeps_the_wave_format(
    wave: WaveFormat,
    limits: Option<(i64, i64)>,
    sample_format: Option<SampleFormat>,
    asked: bool,
    r: Option<SupportedStreamConfig>,
)
    requires
        call_ensures(format_from_waveformatex, (&wave, limits), r),
        call_ensures(WaveFormat::sample_format, (&wave,), sample_format),
        call_ensures(needs_buffer_limits, (&wave,), asked),
    ensures
        r is Some <==> sample_format is Some,
        asked <==> sample_format is Some,
        r matches Some(config) ==> {
            &&& config.channels == wave.channels
            &&& config.sample_rate.0 == wave.samples_per_sec
            &&& Some(config.sample_format) == sample_format
        },
{
}

/// A device without limits takes a buffer of any size. Of one with limits, the least size
/// is counted from the least duration, and the greatest from the greatest.
pub proof fn lemma_configuration_has_the_limits(
    wave: WaveFormat,
    limits: Option<(i64, i64)>,
    min: u32,
    max: u32,
    r: Option<SupportedStreamConfig>,
)
    requires
        call_ensures(format_from_waveformatex, (&wave, limits), r),
        limits matches Some((least, greatest)) ==> call_ensures(
            buffer_duration_to_frames,
            (least, wave.samples_per_sec),
            min,
        ) && call_ensures(buffer_duration_to_frames, (greatest, wave.samples_per_sec), max),
    ensures
        r matches Some(config) ==> config.buffer_size == (match limits {
            None => SupportedBufferSize::Range { min: 0, max: 0xFFFF_FFFF },
            Some(_) => SupportedBufferSize::Range { min, max },
        }),
{
}

} // verus!
