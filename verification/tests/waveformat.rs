use wasapi_host::config::{SampleFormat, SampleRate, SupportedBufferSize, SupportedStreamConfig};
use wasapi_host::waveformat::{
    buffer_duration_fits, buffer_duration_to_frames, cmp_guid, format_from_waveformatex,
    needs_buffer_limits, subtype_ieee_float, subtype_pcm, Guid, WaveFormat, WAVE_FORMAT_EXTENSIBLE,
    WAVE_FORMAT_IEEE_FLOAT, WAVE_FORMAT_PCM,
};

fn wave(format_tag: u16, bits_per_sample: u16, sub_format: Option<Guid>) -> WaveFormat {
    WaveFormat {
        format_tag,
        channels: 2,
        samples_per_sec: 48000,
        bits_per_sample,
        sub_format,
    }
}

fn other_guid() -> Guid {
    Guid {
        data1: 2,
        ..subtype_pcm()
    }
}

#[test]
fn subtypes_have_the_numbers_of_windows() {
    let pcm = windows_core::GUID::from_u128(0x00000001_0000_0010_8000_00aa00389b71);
    let float = windows_core::GUID::from_u128(0x00000003_0000_0010_8000_00aa00389b71);
    for (ours, theirs) in [(subtype_pcm(), pcm), (subtype_ieee_float(), float)] {
        assert_eq!(ours.data1, theirs.data1);
        assert_eq!(ours.data2, theirs.data2);
        assert_eq!(ours.data3, theirs.data3);
        assert_eq!(ours.data4, theirs.data4);
    }
}

#[test]
fn identifiers_differ_in_any_part() {
    let id = subtype_pcm();
    assert!(cmp_guid(&id, &subtype_pcm()));
    assert!(!cmp_guid(&id, &subtype_ieee_float()));
    assert!(!cmp_guid(&id, &Guid { data2: 1, ..id }));
    assert!(!cmp_guid(&id, &Guid { data3: 1, ..id }));
    let mut last = id;
    last.data4[7] = 0;
    assert!(!cmp_guid(&id, &last));
}

#[test]
fn plain_integer_formats() {
    assert_eq!(wave(WAVE_FORMAT_PCM, 8, None).sample_format(), Some(SampleFormat::U8));
    assert_eq!(wave(WAVE_FORMAT_PCM, 16, None).sample_format(), Some(SampleFormat::I16));
    for bits in [0, 12, 24, 32, 64] {
        assert_eq!(wave(WAVE_FORMAT_PCM, bits, None).sample_format(), None);
    }
}

#[test]
fn plain_float_formats() {
    assert_eq!(wave(WAVE_FORMAT_IEEE_FLOAT, 32, None).sample_format(), Some(SampleFormat::F32));
    assert_eq!(wave(WAVE_FORMAT_IEEE_FLOAT, 64, None).sample_format(), None);
    assert_eq!(wave(WAVE_FORMAT_IEEE_FLOAT, 16, None).sample_format(), None);
}

#[test]
fn extensible_formats() {
    let pcm = |bits| wave(WAVE_FORMAT_EXTENSIBLE, bits, Some(subtype_pcm())).sample_format();
    assert_eq!(pcm(8), Some(SampleFormat::U8));
    assert_eq!(pcm(16), Some(SampleFormat::I16));
    assert_eq!(pcm(24), Some(SampleFormat::I24));
    assert_eq!(pcm(32), Some(SampleFormat::I32));
    assert_eq!(pcm(64), Some(SampleFormat::I64));
    assert_eq!(pcm(20), None);
    let float = |bits| wave(WAVE_FORMAT_EXTENSIBLE, bits, Some(subtype_ieee_float()));
    assert_eq!(float(32).sample_format(), Some(SampleFormat::F32));
    assert_eq!(float(64).sample_format(), None);
    assert_eq!(wave(WAVE_FORMAT_EXTENSIBLE, 32, Some(other_guid())).sample_format(), None);
    assert_eq!(wave(WAVE_FORMAT_EXTENSIBLE, 16, Some(other_guid())).sample_format(), None);
}

#[test]
fn unknown_tag_has_no_format() {
    assert_eq!(wave(2, 16, None).sample_format(), None);
}

#[test]
fn durations_are_counted_in_frames() {
    assert_eq!(buffer_duration_to_frames(0, 48000), 0);
    assert_eq!(buffer_duration_to_frames(10_000_000, 48000), 48000);
    assert_eq!(buffer_duration_to_frames(100_000, 44100), 441);
    assert_eq!(buffer_duration_to_frames(101_587, 44100), 447);
    assert_eq!(buffer_duration_to_frames(208, 48000), 0);
    assert_eq!(buffer_duration_to_frames(209, 48000), 1);
    assert_eq!(buffer_duration_to_frames(12345, 0), 0);
}

#[test]
fn frames_round_toward_zero_and_wrap() {
    assert_eq!(buffer_duration_to_frames(-209, 48000), u32::MAX);
    assert_eq!(buffer_duration_to_frames(-208, 48000), 0);
    let day = 24 * 60 * 60 * 10_000_000;
    assert_eq!(buffer_duration_to_frames(day, 100_000), (8_640_000_000u64 % 0x1_0000_0000) as u32);
}

#[test]
fn durations_that_do_not_fit() {
    assert!(buffer_duration_fits(i64::MAX / 100, 1));
    assert!(!buffer_duration_fits(i64::MAX / 100 + 1, 1));
    assert!(buffer_duration_fits(i64::MIN / 100, 1));
    assert!(!buffer_duration_fits(i64::MIN, 1));
    assert!(!buffer_duration_fits(i64::MAX, u32::MAX));
    assert!(buffer_duration_fits(i64::MAX, 0));
}

#[test]
fn longer_buffers_hold_more_frames() {
    let frames: Vec<u32> = [0, 100_000, 200_000, 10_000_000]
        .iter()
        .map(|d| buffer_duration_to_frames(*d, 44100))
        .collect();
    assert_eq!(frames, vec![0, 441, 882, 44100]);
}

#[test]
fn higher_rates_hold_more_frames() {
    let frames: Vec<u32> = [0, 8000, 44100, 48000]
        .iter()
        .map(|rate| buffer_duration_to_frames(100_000, *rate))
        .collect();
    assert_eq!(frames, vec![0, 80, 441, 480]);
}

#[test]
fn configuration_without_limits() {
    assert_eq!(
        format_from_waveformatex(&wave(WAVE_FORMAT_PCM, 16, None), None),
        Some(SupportedStreamConfig {
            channels: 2,
            sample_rate: SampleRate(48000),
            buffer_size: SupportedBufferSize::Range {
                min: 0,
                max: u32::MAX
            },
            sample_format: SampleFormat::I16,
        })
    );
}

#[test]
fn configuration_with_limits() {
    assert_eq!(
        format_from_waveformatex(
            &wave(WAVE_FORMAT_IEEE_FLOAT, 32, None),
            Some((100_000, 5_000_000))
        ),
        Some(SupportedStreamConfig {
            channels: 2,
            sample_rate: SampleRate(48000),
            buffer_size: SupportedBufferSize::Range {
                min: 480,
                max: 24000
            },
            sample_format: SampleFormat::F32,
        })
    );
}

#[test]
fn limits_matter_where_there_is_a_configuration() {
    assert!(needs_buffer_limits(&wave(WAVE_FORMAT_PCM, 16, None)));
    assert!(!needs_buffer_limits(&wave(WAVE_FORMAT_PCM, 24, None)));
}

#[test]
fn no_configuration_for_unknown_samples() {
    assert_eq!(
        format_from_waveformatex(&wave(WAVE_FORMAT_PCM, 24, None), Some((1, 2))),
        None
    );
}
