use wasapi_host::config::{
    common_sample_rates, BufferSize, SampleFormat, SampleRate, StreamConfig, SupportedBufferSize,
    SupportedStreamConfig, SupportedStreamConfigRange,
};
use wasapi_host::error::{
    BackendSpecificError, SupportedStreamConfigsError, AUDCLNT_E_DEVICE_INVALIDATED, S_FALSE,
};
use wasapi_host::formats::{
    candidate_sample_rates, candidates, is_format_supported, Candidate, CandidateReply,
    FormatProbe, FormatsAction, FormatsEvent, SupportedFormats,
};
use wasapi_host::waveformat::{WaveFormat, WAVE_FORMAT_PCM};
use windows_core::{Error, HRESULT};

const S_OK: i32 = 0;
const UNSUPPORTED: i32 = 0x88890008u32 as i32;

fn wave(bits_per_sample: u16) -> WaveFormat {
    WaveFormat {
        format_tag: WAVE_FORMAT_PCM,
        channels: 2,
        samples_per_sec: 48000,
        bits_per_sample,
        sub_format: None,
    }
}

fn any_size() -> SupportedBufferSize {
    SupportedBufferSize::Range {
        min: 0,
        max: u32::MAX,
    }
}

fn entry(rate: u32, sample_format: SampleFormat) -> SupportedStreamConfigRange {
    SupportedStreamConfigRange {
        channels: 2,
        min_sample_rate: SampleRate(rate),
        max_sample_rate: SampleRate(rate),
        buffer_size: any_size(),
        sample_format,
    }
}

fn backend_error(description: &str) -> SupportedStreamConfigsError {
    SupportedStreamConfigsError::BackendSpecific {
        err: BackendSpecificError {
            description: description.to_string(),
        },
    }
}

/// Runs a query of a 16-bit mix format to its end and counts the variations tried.
fn run(
    common: Vec<SampleRate>,
    mut reply: impl FnMut(Candidate) -> CandidateReply,
) -> (Result<Vec<SupportedStreamConfigRange>, SupportedStreamConfigsError>, usize) {
    let mut tried = 0;
    let mut state = SupportedFormats::new(common);
    loop {
        let event = match state.action() {
            FormatsAction::GetMixFormat => FormatsEvent::MixFormat { mix: Ok(wave(16)) },
            FormatsAction::CheckMixFormat => FormatsEvent::MixFormatChecked { result: S_OK },
            FormatsAction::GetBufferSizeLimits => FormatsEvent::BufferSizeLimits { limits: None },
            FormatsAction::CheckCandidate { candidate } => {
                tried += 1;
                FormatsEvent::CandidateChecked {
                    reply: reply(candidate),
                }
            }
            FormatsAction::Finish => break,
        };
        state = state.step(event);
    }
    match state {
        SupportedFormats::Finished { result } => (result, tried),
        _ => panic!("the query should be finished"),
    }
}

fn finished(
    state: SupportedFormats,
) -> Result<Vec<SupportedStreamConfigRange>, SupportedStreamConfigsError> {
    match state {
        SupportedFormats::Finished { result } => result,
        _ => panic!("the query should be finished"),
    }
}

#[test]
fn answers_about_a_format() {
    assert_eq!(is_format_supported(S_OK), Ok(true));
    assert_eq!(is_format_supported(2), Ok(true));
    assert_eq!(is_format_supported(S_FALSE), Ok(false));
    assert_eq!(is_format_supported(UNSUPPORTED), Ok(false));
    assert_eq!(is_format_supported(-1), Ok(false));
    assert_eq!(
        is_format_supported(AUDCLNT_E_DEVICE_INVALIDATED),
        Err(SupportedStreamConfigsError::DeviceNotAvailable)
    );
}

#[test]
fn default_rate_is_added_once() {
    let common = vec![SampleRate(44100), SampleRate(48000)];
    assert_eq!(candidate_sample_rates(common.clone(), SampleRate(48000)), common);
    assert_eq!(
        candidate_sample_rates(common, SampleRate(37000)),
        vec![SampleRate(44100), SampleRate(48000), SampleRate(37000)]
    );
    assert_eq!(candidate_sample_rates(vec![], SampleRate(1)), vec![SampleRate(1)]);
}

#[test]
fn common_rates_hold_none_twice() {
    let rates = common_sample_rates();
    assert_eq!(rates.len(), 13);
    assert_eq!(rates[0], SampleRate(5512));
    assert_eq!(rates[12], SampleRate(192000));
    for i in 0..rates.len() {
        assert!(!rates[i + 1..].contains(&rates[i]));
    }
}

#[test]
fn variations_go_by_rate_and_then_by_format() {
    let all = candidates(2, &vec![SampleRate(44100), SampleRate(48000)]);
    let formats = [
        SampleFormat::U8,
        SampleFormat::I16,
        SampleFormat::I24,
        SampleFormat::U24,
        SampleFormat::I32,
        SampleFormat::I64,
        SampleFormat::F32,
    ];
    assert_eq!(all.len(), 14);
    for i in 0..14 {
        assert_eq!(
            all[i],
            Candidate {
                config: StreamConfig {
                    channels: 2,
                    sample_rate: SampleRate(if i < 7 { 44100 } else { 48000 }),
                    buffer_size: BufferSize::Default,
                },
                sample_format: formats[i % 7],
            }
        );
    }
}

#[test]
fn accepted_variations_are_listed_in_order() {
    let common = vec![SampleRate(44100), SampleRate(48000)];
    let (result, tried) = run(common, |candidate| match candidate.sample_format {
        SampleFormat::I16 => CandidateReply::Answer(S_OK),
        SampleFormat::F32 => CandidateReply::Answer(S_FALSE),
        SampleFormat::U24 => CandidateReply::Unrepresentable,
        SampleFormat::I64 if candidate.config.sample_rate == SampleRate(48000) => {
            CandidateReply::Answer(S_OK)
        }
        _ => CandidateReply::Answer(UNSUPPORTED),
    });
    assert_eq!(tried, 14);
    assert_eq!(
        result,
        Ok(vec![
            entry(44100, SampleFormat::I16),
            entry(48000, SampleFormat::I16),
            entry(48000, SampleFormat::I64),
        ])
    );
}

#[test]
fn default_rate_is_tried_last_where_it_is_not_common() {
    let (result, tried) = run(vec![SampleRate(44100)], |candidate| {
        if candidate.sample_format == SampleFormat::U8 {
            CandidateReply::Answer(S_OK)
        } else {
            CandidateReply::Unrepresentable
        }
    });
    assert_eq!(tried, 14);
    assert_eq!(
        result,
        Ok(vec![entry(44100, SampleFormat::U8), entry(48000, SampleFormat::U8)])
    );
}

#[test]
fn nothing_supported_is_an_empty_list() {
    let (result, tried) = run(common_sample_rates(), |_| CandidateReply::Answer(UNSUPPORTED));
    assert_eq!(tried, 13 * 7);
    assert_eq!(result, Ok(vec![]));
}

#[test]
fn no_entry_is_listed_twice() {
    let (result, _) = run(common_sample_rates(), |_| CandidateReply::Answer(S_OK));
    let list = result.unwrap();
    assert_eq!(list.len(), 13 * 7);
    for i in 0..list.len() {
        assert!(!list[i + 1..].contains(&list[i]));
    }
}

#[test]
fn endpoint_that_goes_away_ends_the_query() {
    let mut count = 0;
    let (result, tried) = run(common_sample_rates(), |_| {
        count += 1;
        if count == 5 {
            CandidateReply::Answer(AUDCLNT_E_DEVICE_INVALIDATED)
        } else {
            CandidateReply::Answer(S_OK)
        }
    });
    assert_eq!(tried, 5);
    assert_eq!(result, Err(SupportedStreamConfigsError::DeviceNotAvailable));
}

#[test]
fn failed_mix_format_ends_the_query() {
    let gone = Error::from_hresult(HRESULT(AUDCLNT_E_DEVICE_INVALIDATED));
    let state = SupportedFormats::new(common_sample_rates());
    assert_eq!(
        finished(state.step(FormatsEvent::MixFormat { mix: Err(gone) })),
        Err(SupportedStreamConfigsError::DeviceNotAvailable)
    );
    let other = Error::from_hresult(HRESULT(UNSUPPORTED));
    let text = format!("{}", other);
    let state = SupportedFormats::new(common_sample_rates());
    assert_eq!(
        finished(state.step(FormatsEvent::MixFormat { mix: Err(other) })),
        Err(backend_error(&text))
    );
}

#[test]
fn mix_format_that_is_not_taken_ends_the_query() {
    for (result, error) in [
        (
            AUDCLNT_E_DEVICE_INVALIDATED,
            SupportedStreamConfigsError::DeviceNotAvailable,
        ),
        (
            S_FALSE,
            backend_error("Could not determine support for default `WAVEFORMATEX`"),
        ),
        (
            UNSUPPORTED,
            backend_error("Could not determine support for default `WAVEFORMATEX`"),
        ),
    ] {
        let state = SupportedFormats::new(common_sample_rates())
            .step(FormatsEvent::MixFormat { mix: Ok(wave(16)) });
        assert_eq!(state.action(), FormatsAction::CheckMixFormat);
        assert_eq!(
            finished(state.step(FormatsEvent::MixFormatChecked { result })),
            Err(error)
        );
    }
}

#[test]
fn mix_format_of_unknown_samples_ends_the_query() {
    let state = SupportedFormats::new(common_sample_rates())
        .step(FormatsEvent::MixFormat { mix: Ok(wave(24)) })
        .step(FormatsEvent::MixFormatChecked { result: S_OK });
    assert_eq!(
        finished(state),
        Err(backend_error(
            "could not create a `cpal::SupportedStreamConfig` from a `WAVEFORMATEX`"
        ))
    );
}

#[test]
fn buffer_limits_show_in_every_entry() {
    let state = SupportedFormats::new(vec![])
        .step(FormatsEvent::MixFormat { mix: Ok(wave(8)) })
        .step(FormatsEvent::MixFormatChecked { result: S_OK });
    assert_eq!(state.action(), FormatsAction::GetBufferSizeLimits);
    let mut state = state.step(FormatsEvent::BufferSizeLimits {
        limits: Some((100_000, 200_000)),
    });
    for _ in 0..7 {
        state = state.step(FormatsEvent::CandidateChecked {
            reply: CandidateReply::Answer(S_OK),
        });
    }
    let list = finished(state).unwrap();
    assert_eq!(list.len(), 7);
    for range in list {
        assert_eq!(range.channels, 2);
        assert_eq!(range.min_sample_rate, range.max_sample_rate);
        assert_eq!(
            range.buffer_size,
            SupportedBufferSize::Range { min: 480, max: 960 }
        );
    }
}

#[test]
fn probe_keeps_its_place_when_the_endpoint_is_gone() {
    let format = SupportedStreamConfig {
        channels: 2,
        sample_rate: SampleRate(48000),
        buffer_size: any_size(),
        sample_format: SampleFormat::I16,
    };
    let mut probe = FormatProbe::new(vec![], format);
    assert_eq!(
        probe.next_candidate().unwrap().sample_format,
        SampleFormat::U8
    );
    assert_eq!(
        probe.answer(CandidateReply::Answer(AUDCLNT_E_DEVICE_INVALIDATED)),
        Err(SupportedStreamConfigsError::DeviceNotAvailable)
    );
    assert_eq!(probe.position, 0);
    assert_eq!(probe.answer(CandidateReply::Answer(S_OK)), Ok(()));
    assert_eq!(probe.supported, vec![entry(48000, SampleFormat::U8)]);
    for _ in 0..6 {
        assert_eq!(probe.answer(CandidateReply::Unrepresentable), Ok(()));
    }
    assert_eq!(probe.next_candidate(), None);
}
