//! Laws on the query for the supported formats.
use crate::config::{
    common_sample_rates, SampleFormat, SampleRate, SupportedStreamConfig,
    SupportedStreamConfigRange,
};
use crate::error::{error_code, is_display_of, SupportedStreamConfigsError};
use crate::formats::{
    accepted, all_candidates, candidate, candidate_sample_rates, candidates, failed_gone,
    is_format_supported, lemma_default_rate_tried, probe_advance, probe_start, probing_at,
    tried_formats, tried_rates, Candidate, CandidateReply, FormatProbe, FormatsAction, FormatsEvent,
    ProbeView, SupportedFormats,
};
use crate::waveformat::{config_for, format_from_waveformatex, WaveFormat};
use vstd::prelude::*;

verus! {

/// The common sample rates, from the lowest to the highest.
pub proof fn lemma_common_sample_rates(r: Vec<SampleRate>)
    requires
        call_ensures(common_sample_rates, (), r),
    ensures
        r@.len() == 13,
        r@[0].0 == 5512 && r@[1].0 == 8000 && r@[2].0 == 11025 && r@[3].0 == 16000,
        r@[4].0 == 22050 && r@[5].0 == 32000 && r@[6].0 == 44100 && r@[7].0 == 48000,
        r@[8].0 == 64000 && r@[9].0 == 88200 && r@[10].0 == 96000 && r@[11].0 == 176400,
        r@[12].0 == 192000,
        forall|i: int, j: int| 0 <= i < j < r@.len() ==> r@[i].0 < r@[j].0,
{
}

/// The answer 0x88890004 is an error, as the device is gone. Of the others, those below zero
/// and 1 are a no, and the rest a yes.
pub proof fn lemma_answers_by_number(
    code: i32,
    r: Result<bool, SupportedStreamConfigsError>,
)
    requires
        call_ensures(is_format_supported, (code,), r),
    ensures
        code == 0x8889_0004 - 0x1_0000_0000 ==> r matches Err(
            SupportedStreamConfigsError::DeviceNotAvailable,
        ),
        code < 0 && code != 0x8889_0004 - 0x1_0000_0000 ==> r matches Ok(false),
        code == 1 ==> r matches Ok(false),
        code >= 0 && code != 1 ==> r matches Ok(true),
{
}

/// The rates to try are the common ones in their order, with the default one behind them
/// where it is not one of them.
pub proof fn lemma_rates_to_try(
    common: Vec<SampleRate>,
    default: SampleRate,
    r: Vec<SampleRate>,
)
    requires
        call_ensures(candidate_sample_rates, (common, default), r),
    ensures
        common@.len() <= r@.len() <= common@.len() + 1,
        forall|i: int| 0 <= i < common@.len() ==> r@[i] == common@[i],
        r@.len() == common@.len() <==> exists|i: int|
            0 <= i < common@.len() && common@[i].0 == default.0,
        r@.len() == common@.len() + 1 ==> r@[common@.len() as int].0 == default.0,
{
    if common@.contains(default) {
        let i = choose|i: int| 0 <= i < common@.len() && common@[i] == default;
        assert(common@[i].0 == default.0);
    }
    assert forall|i: int|
        0 <= i < common@.len() && common@[i].0 == default.0 implies common@.contains(default) by {
        assert(common@[i] == default);
    }
}

/// The variation has these channels, this rate and this sample format, and leaves the buffer
/// size to the system.
pub open spec fn varies(c: Candidate, channels: u16, rate: SampleRate, f: SampleFormat) -> bool {
    &&& c.config.channels == channels
    &&& c.config.sample_rate.0 == rate.0
    &&& c.config.buffer_size is Default
    &&& c.sample_format == f
}

/// The seven variations from the given place on are those of one rate, in the order of their
/// sample formats.
#[verifier::opaque]
pub open spec fn are_of_rate(
    list: Seq<Candidate>,
    place: int,
    channels: u16,
    rate: SampleRate,
) -> bool {
    &&& varies(list[place], channels, rate, SampleFormat::U8)
    &&& varies(list[place + 1], channels, rate, SampleFormat::I16)
    &&& varies(list[place + 2], channels, rate, SampleFormat::I24)
    &&& varies(list[place + 3], channels, rate, SampleFormat::U24)
    &&& varies(list[place + 4], channels, rate, SampleFormat::I32)
    &&& varies(list[place + 5], channels, rate, SampleFormat::I64)
    &&& varies(list[place + 6], channels, rate, SampleFormat::F32)
}

/// Every rate is varied by the same seven sample formats, rate by rate.
pub proof fn lemma_variations_of_every_rate(
    channels: u16,
    rates: Vec<SampleRate>,
    r: Vec<Candidate>,
)
    requires
        call_ensures(candidates, (channels, &rates), r),
    ensures
        r@.len() == 7 * rates@.len(),
        forall|i: int|
            0 <= i < rates@.len() ==> are_of_rate(r@, 7 * i, channels, #[trigger] rates@[i]),
{
    assert forall|i: int| 0 <= i < rates@.len() implies are_of_rate(
        r@,
        7 * i,
        channels,
        #[trigger] rates@[i],
    ) by {
        lemma_seven_of_rate(channels, rates@, i);
    }
}

proof fn lemma_seven_of_rate(channels: u16, rates: Seq<SampleRate>, i: int)
    requires
        0 <= i < rates.len(),
    ensures
        are_of_rate(all_candidates(channels, rates), 7 * i, channels, rates[i]),
{
    reveal(are_of_rate);
    let all = all_candidates(channels, rates);
    assert forall|k: int| 0 <= k < 7 implies #[trigger] all[7 * i + k] == candidate(
        channels,
        rates[i],
        tried_formats()[k],
    ) by {
        assert((7 * i + k) / 7 == i && (7 * i + k) % 7 == k);
    }
    assert(all[7 * i] == all[7 * i + 0]);
}

/// What is tried: the common rates in their order, then the default one where it is not one
/// of them, each with every sample format, and nothing else.
pub open spec fn tries(
    list: Seq<Candidate>,
    common: Seq<SampleRate>,
    channels: u16,
    default: SampleRate,
) -> bool {
    let is_common = exists|i: int| 0 <= i < common.len() && (#[trigger] common[i]).0 == default.0;
    &&& list.len() == 7 * common.len() + if is_common {
        0int
    } else {
        7
    }
    &&& forall|i: int|
        0 <= i < common.len() ==> are_of_rate(list, 7 * i, channels, #[trigger] common[i])
    &&& !is_common ==> are_of_rate(list, 7 * common.len() as int, channels, default)
}

proof fn lemma_tries(common: Seq<SampleRate>, channels: u16, default: SampleRate)
    ensures
        tries(
            all_candidates(channels, tried_rates(common, default)),
            common,
            channels,
            default,
        ),
{
    let rates = tried_rates(common, default);
    let is_common = exists|i: int| 0 <= i < common.len() && (#[trigger] common[i]).0 == default.0;
    assert(is_common <==> common.contains(default)) by {
        if is_common {
            let i = choose|i: int|
                0 <= i < common.len() && (#[trigger] common[i]).0 == default.0;
            assert(common[i] == default);
        }
        if common.contains(default) {
            let i = choose|i: int| 0 <= i < common.len() && common[i] == default;
            assert(common[i].0 == default.0);
        }
    }
    assert forall|i: int| 0 <= i < common.len() implies are_of_rate(
        all_candidates(channels, rates),
        7 * i,
        channels,
        #[trigger] common[i],
    ) by {
        lemma_seven_of_rate(channels, rates, i);
    }
    if !is_common {
        lemma_seven_of_rate(channels, rates, common.len() as int);
    }
}

/// A probe starts with nothing tried and nothing listed, and will try every rate with every
/// sample format.
pub proof fn lemma_probe_starts(
    common: Vec<SampleRate>,
    format: SupportedStreamConfig,
    r: FormatProbe,
)
    requires
        call_ensures(FormatProbe::new, (common, format), r),
    ensures
        r.format == format,
        r.position == 0,
        r.supported@.len() == 0,
        tries(r.candidates@, common@, format.channels, format.sample_rate),
{
    lemma_tries(common@, format.channels, format.sample_rate);
    assert(r@.candidates == r.candidates@ && r@.supported == r.supported@ && r@.format == r.format);
}

/// The variation to try next is the one at the probe's place, as long as there is one.
pub proof fn lemma_next_variation(probe: FormatProbe, r: Option<Candidate>)
    requires
        call_ensures(FormatProbe::next_candidate, (&probe,), r),
    ensures
        probe.position < probe.candidates@.len() ==> r == Some(
            probe.candidates@[probe.position as int],
        ),
        probe.position >= probe.candidates@.len() ==> r is None,
{
}

/// The endpoint takes the variation.
pub open spec fn is_yes(reply: CandidateReply) -> bool {
    reply matches CandidateReply::Answer(code) && code >= 0 && code != 1
}

/// The endpoint is gone.
pub open spec fn is_gone(reply: CandidateReply) -> bool {
    reply matches CandidateReply::Answer(code) && code == 0x8889_0004 - 0x1_0000_0000
}

/// The entry names the sample format and the rate of the variation, and that rate alone.
pub open spec fn names(entry: SupportedStreamConfigRange, c: Candidate) -> bool {
    &&& entry.sample_format == c.sample_format
    &&& entry.min_sample_rate.0 == c.config.sample_rate.0
    &&& entry.max_sample_rate.0 == c.config.sample_rate.0
}

/// A yes lists the variation that was tried, behind what was listed before; any other answer
/// lists nothing. Both go on to the next variation. If the device is gone, that is the error,
/// and nothing changes.
pub proof fn lemma_answer_lists_the_variation(reply: CandidateReply)
    ensures
        forall|probe: &mut FormatProbe, r: Result<(), SupportedStreamConfigsError>|
            #![trigger call_ensures(FormatProbe::answer, (probe, reply), r)]
            call_ensures(FormatProbe::answer, (probe, reply), r) ==> {
                let list = probe.supported@;
                let after = final(probe).supported@;
                &&& final(probe).format == probe.format
                &&& final(probe).candidates@ == probe.candidates@
                &&& is_gone(reply) ==> r == Err::<(), _>(
                    SupportedStreamConfigsError::DeviceNotAvailable,
                ) && final(probe).position == probe.position && after == list
                &&& !is_gone(reply) ==> r is Ok && final(probe).position == probe.position + 1
                &&& is_yes(reply) ==> {
                    &&& after.len() == list.len() + 1
                    &&& forall|k: int| 0 <= k < list.len() ==> after[k] == list[k]
                    &&& names(after.last(), probe.candidates@[probe.position as int])
                    &&& after.last().channels == probe.format.channels
                    &&& after.last().buffer_size == probe.format.buffer_size
                }
                &&& !is_yes(reply) ==> after == list
            },
{
    assert forall|probe: &mut FormatProbe, r: Result<(), SupportedStreamConfigsError>|
        #![trigger call_ensures(FormatProbe::answer, (probe, reply), r)]
        call_ensures(FormatProbe::answer, (probe, reply), r) && !is_gone(reply) implies {
        &&& final(probe).position == probe.position + 1
        &&& final(probe).candidates@ == probe.candidates@
        &&& final(probe).format == probe.format
        &&& final(probe).supported@ == probe_advance(probe@, reply).supported
    } by {
        assert(final(probe)@ == probe_advance(probe@, reply));
    }
}

/// A query first needs the mix format. Where the system has none, its error is the reason: the
/// device is gone, or the error's own text.
pub proof fn lemma_query_starts_with_mix_format(
    common: Vec<SampleRate>,
    error: windows_core::Error,
    start: SupportedFormats,
    action: FormatsAction,
    end: SupportedFormats,
)
    requires
        call_ensures(SupportedFormats::new, (common,), start),
        call_ensures(SupportedFormats::action, (&start,), action),
        call_ensures(
            SupportedFormats::step,
            (start, FormatsEvent::MixFormat { mix: Err(error) }),
            end,
        ),
    ensures
        action is GetMixFormat,
        end matches SupportedFormats::Finished { result: Err(reason) } && match reason {
            SupportedStreamConfigsError::DeviceNotAvailable => error_code(error) == 0x8889_0004
                - 0x1_0000_0000,
            SupportedStreamConfigsError::BackendSpecific { err } => error_code(error)
                != 0x8889_0004 - 0x1_0000_0000 && is_display_of(error, err.description@),
            _ => false,
        },
{
}

/// The mix format is put to the endpoint. Where it is not taken, or has samples that streams
/// cannot have, the query ends with the words that say so, and where the device is gone, with
/// that. Else the buffer limits come next.
pub proof fn lemma_query_checks_mix_format(
    common: Vec<SampleRate>,
    wave: WaveFormat,
    code: i32,
    start: SupportedFormats,
    checking: SupportedFormats,
    action: FormatsAction,
    next: SupportedFormats,
    next_action: FormatsAction,
    sample_format: Option<SampleFormat>,
)
    requires
        call_ensures(SupportedFormats::new, (common,), start),
        call_ensures(
            SupportedFormats::step,
            (start, FormatsEvent::MixFormat { mix: Ok(wave) }),
            checking,
        ),
        call_ensures(SupportedFormats::action, (&checking,), action),
        call_ensures(
            SupportedFormats::step,
            (checking, FormatsEvent::MixFormatChecked { result: code }),
            next,
        ),
        call_ensures(SupportedFormats::action, (&next,), next_action),
        call_ensures(WaveFormat::sample_format, (&wave,), sample_format),
    ensures
        action is CheckMixFormat,
        code == 0x8889_0004 - 0x1_0000_0000 ==> next_action is Finish && (
        next matches SupportedFormats::Finished {
            result: Err(SupportedStreamConfigsError::DeviceNotAvailable),
        }),
        code == 1 || (code < 0 && code != 0x8889_0004 - 0x1_0000_0000) ==> next_action is Finish
            && (next matches SupportedFormats::Finished {
            result: Err(SupportedStreamConfigsError::BackendSpecific { err }),
        } && err.description@ == "Could not determine support for default `WAVEFORMATEX`"@),
        code >= 0 && code != 1 && sample_format is None ==> next_action is Finish && (
        next matches SupportedFormats::Finished {
            result: Err(SupportedStreamConfigsError::BackendSpecific { err }),
        } && err.description@
            == "could not create a `cpal::SupportedStreamConfig` from a `WAVEFORMATEX`"@),
        code >= 0 && code != 1 && sample_format is Some ==> next_action is GetBufferSizeLimits,
{
}

/// A query puts the variations `asked` to the endpoint, one after the other, and gets the
/// `replies`. `states` are the states that it goes through.
pub open spec fn asks(
    states: Seq<SupportedFormats>,
    asked: Seq<Candidate>,
    replies: Seq<CandidateReply>,
) -> bool {
    &&& states.len() == replies.len() + 1
    &&& asked.len() == replies.len()
    &&& forall|i: int|
        0 <= i < replies.len() ==> call_ensures(
            SupportedFormats::action,
            (&states[i],),
            FormatsAction::CheckCandidate { candidate: asked[i] },
        ) && call_ensures(
            SupportedFormats::step,
            (states[i], FormatsEvent::CandidateChecked { reply: #[trigger] replies[i] }),
            states[i + 1],
        )
}

/// The list names the variations at these places, in their order, and these are the places of
/// every yes.
pub open spec fn picks(
    places: Seq<int>,
    list: Seq<SupportedStreamConfigRange>,
    asked: Seq<Candidate>,
    replies: Seq<CandidateReply>,
) -> bool {
    &&& places.len() == list.len()
    &&& forall|j: int, k: int| 0 <= j < k < places.len() ==> places[j] < places[k]
    &&& forall|k: int|
        0 <= k < places.len() ==> 0 <= #[trigger] places[k] < replies.len() && is_yes(
            replies[places[k]],
        ) && names(list[k], asked[places[k]])
    &&& forall|i: int|
        0 <= i < replies.len() && is_yes(#[trigger] replies[i]) ==> places.contains(i)
}

/// The entry names a variation that was answered with a yes.
pub open spec fn names_taken(
    entry: SupportedStreamConfigRange,
    asked: Seq<Candidate>,
    replies: Seq<CandidateReply>,
) -> bool {
    exists|i: int|
        0 <= i < replies.len() && is_yes(#[trigger] replies[i]) && names(entry, asked[i])
}

/// The list that a query ends with names the variations that the endpoint took, each by its
/// own sample format and rate, in the order in which they were tried, and no others. Every
/// entry has the channels of the mix format and the buffer size of its limits. By then every
/// common rate and the rate of the mix format were tried with every sample format.
pub proof fn lemma_list_names_what_was_taken(
    common: Vec<SampleRate>,
    wave: WaveFormat,
    code: i32,
    limits: Option<(i64, i64)>,
    format: Option<SupportedStreamConfig>,
    first: (SupportedFormats, SupportedFormats, SupportedFormats),
    states: Seq<SupportedFormats>,
    asked: Seq<Candidate>,
    replies: Seq<CandidateReply>,
    list: Vec<SupportedStreamConfigRange>,
)
    requires
        call_ensures(SupportedFormats::new, (common,), first.0),
        call_ensures(
            SupportedFormats::step,
            (first.0, FormatsEvent::MixFormat { mix: Ok(wave) }),
            first.1,
        ),
        call_ensures(
            SupportedFormats::step,
            (first.1, FormatsEvent::MixFormatChecked { result: code }),
            first.2,
        ),
        call_ensures(
            SupportedFormats::step,
            (first.2, FormatsEvent::BufferSizeLimits { limits }),
            states[0],
        ),
        call_ensures(format_from_waveformatex, (&wave, limits), format),
        asks(states, asked, replies),
        states.last() == (SupportedFormats::Finished { result: Ok(list) }),
    ensures
        forall|i: int| 0 <= i < replies.len() ==> !is_gone(#[trigger] replies[i]),
        tries(asked, common@, wave.channels, SampleRate(wave.samples_per_sec)),
        exists|places: Seq<int>| #[trigger] picks(places, list@, asked, replies),
        forall|i: int|
            0 <= i < replies.len() && is_yes(#[trigger] replies[i]) ==> exists|k: int|
                0 <= k < list@.len() && names(#[trigger] list@[k], asked[i]),
        forall|k: int| 0 <= k < list@.len() ==> names_taken(#[trigger] list@[k], asked, replies),
        forall|k: int|
            0 <= k < list@.len() ==> (#[trigger] list@[k]).channels == wave.channels && (
            format matches Some(config) && list@[k].buffer_size == config.buffer_size),
{
    let config = format->0;
    let start = probe_start(common@, config);
    lemma_configuration_rate(wave, limits, format);
    lemma_default_rate_tried(common@, config.sample_rate);
    lemma_run_of_answers(start, states, asked, replies);
    lemma_tries(common@, config.channels, config.sample_rate);
    assert(asked =~= start.candidates);
    lemma_accepted_picks(config, start.candidates, replies);
    assert(list@ == accepted(config, start.candidates, replies));
    let places = yes_places(replies);
    assert(picks(places, list@, asked, replies));
    assert forall|i: int| 0 <= i < replies.len() && is_yes(#[trigger] replies[i]) implies exists|
        k: int,
    |
        0 <= k < list@.len() && names(#[trigger] list@[k], asked[i]) by {
        let k = choose|k: int| 0 <= k < places.len() && places[k] == i;
        assert(names(list@[k], asked[places[k]]));
    }
    assert forall|k: int| 0 <= k < list@.len() implies names_taken(
        #[trigger] list@[k],
        asked,
        replies,
    ) by {
        let i = places[k];
        assert(is_yes(replies[i]) && names(list@[k], asked[i]));
    }
}

/// A query in which every variation got an answer, and none that the device is gone, ends with
/// a list. One in which the device is gone ends with that at once, and lists nothing.
pub proof fn lemma_query_lists_or_is_gone(
    common: Vec<SampleRate>,
    wave: WaveFormat,
    code: i32,
    limits: Option<(i64, i64)>,
    first: (SupportedFormats, SupportedFormats, SupportedFormats),
    states: Seq<SupportedFormats>,
    asked: Seq<Candidate>,
    replies: Seq<CandidateReply>,
)
    requires
        call_ensures(SupportedFormats::new, (common,), first.0),
        call_ensures(
            SupportedFormats::step,
            (first.0, FormatsEvent::MixFormat { mix: Ok(wave) }),
            first.1,
        ),
        call_ensures(
            SupportedFormats::step,
            (first.1, FormatsEvent::MixFormatChecked { result: code }),
            first.2,
        ),
        call_ensures(
            SupportedFormats::step,
            (first.2, FormatsEvent::BufferSizeLimits { limits }),
            states[0],
        ),
        asks(states, asked, replies),
    ensures
        forall|i: int| 0 <= i < replies.len() - 1 ==> !is_gone(#[trigger] replies[i]),
        replies.len() > 0 && is_gone(replies.last()) ==> states.last()
            matches SupportedFormats::Finished {
            result: Err(SupportedStreamConfigsError::DeviceNotAvailable),
        },
        replies.len() == 0 || !is_gone(replies.last()) ==> if tries(
            asked,
            common@,
            wave.channels,
            SampleRate(wave.samples_per_sec),
        ) {
            states.last() matches SupportedFormats::Finished { result: Ok(list) }
        } else {
            states.last() is Probing
        },
{
    let config = config_for(wave, limits)->0;
    let start = probe_start(common@, config);
    lemma_default_rate_tried(common@, config.sample_rate);
    lemma_run_of_answers(start, states, asked, replies);
    lemma_tries(common@, config.channels, config.sample_rate);
    if asked.len() == start.candidates.len() {
        assert(asked =~= start.candidates);
    }
}

/// The configuration for a wave format has its channels and its sample rate.
proof fn lemma_configuration_rate(
    wave: WaveFormat,
    limits: Option<(i64, i64)>,
    format: Option<SupportedStreamConfig>,
)
    requires
        call_ensures(format_from_waveformatex, (&wave, limits), format),
    ensures
        format == config_for(wave, limits),
        format matches Some(config) ==> config.channels == wave.channels && config.sample_rate
            == SampleRate(wave.samples_per_sec),
{
}

/// The places of the answers that are a yes, in their order.
spec fn yes_places(replies: Seq<CandidateReply>) -> Seq<int>
    decreases replies.len(),
{
    if replies.len() == 0 {
        Seq::empty()
    } else if is_yes(replies.last()) {
        yes_places(replies.drop_last()).push(replies.len() - 1)
    } else {
        yes_places(replies.drop_last())
    }
}

proof fn lemma_accepted_picks(
    format: SupportedStreamConfig,
    candidates: Seq<Candidate>,
    replies: Seq<CandidateReply>,
)
    requires
        replies.len() <= candidates.len(),
    ensures
        picks(yes_places(replies), accepted(format, candidates, replies), candidates, replies),
        forall|k: int|
            #![trigger accepted(format, candidates, replies)[k]]
            0 <= k < accepted(format, candidates, replies).len() ==> {
                let entry = accepted(format, candidates, replies)[k];
                entry.channels == format.channels && entry.buffer_size == format.buffer_size
            },
    decreases replies.len(),
{
    if replies.len() > 0 {
        let before = replies.drop_last();
        let n = replies.len() - 1;
        lemma_accepted_picks(format, candidates, before);
        let places = yes_places(replies);
        let list = accepted(format, candidates, replies);
        let places_before = yes_places(before);
        let list_before = accepted(format, candidates, before);
        assert(replies[n] == replies.last());
        assert(is_yes(replies[n]) == replies[n].supported());
        assert forall|k: int| 0 <= k < places.len() implies 0 <= #[trigger] places[k]
            < replies.len() && is_yes(replies[places[k]]) && names(
            list[k],
            candidates[places[k]],
        ) by {
            if k < places_before.len() {
                assert(places[k] == places_before[k] && list[k] == list_before[k]);
                assert(before[places[k]] == replies[places[k]]);
            }
        }
        assert forall|j: int, k: int| 0 <= j < k < places.len() implies places[j] < places[k] by {
            assert(places[j] == places_before[j]);
            if k < places_before.len() {
                assert(places[k] == places_before[k]);
            }
        }
        assert forall|i: int|
            0 <= i < replies.len() && is_yes(#[trigger] replies[i]) implies places.contains(i) by {
            if i < n {
                assert(before[i] == replies[i]);
                let k = choose|k: int| 0 <= k < places_before.len() && places_before[k] == i;
                assert(places[k] == i);
            } else {
                assert(places[places_before.len() as int] == i);
            }
        }
        assert forall|k: int| 0 <= k < list.len() implies (#[trigger] list[k]).channels
            == format.channels && list[k].buffer_size == format.buffer_size by {
            if k < list_before.len() {
                assert(list[k] == list_before[k]);
            }
        }
    }
}

proof fn lemma_run_of_answers(
    start: ProbeView,
    states: Seq<SupportedFormats>,
    asked: Seq<Candidate>,
    replies: Seq<CandidateReply>,
)
    requires
        start.position == 0,
        start.supported.len() == 0,
        start.candidates.len() > 0,
        probing_at(states[0], start),
        asks(states, asked, replies),
    ensures
        forall|i: int| 0 <= i < replies.len() - 1 ==> !is_gone(#[trigger] replies[i]),
        replies.len() <= start.candidates.len(),
        forall|i: int| 0 <= i < asked.len() ==> #[trigger] asked[i] == start.candidates[i],
        if replies.len() > 0 && is_gone(replies.last()) {
            failed_gone(states.last())
        } else {
            probing_at(
                states.last(),
                ProbeView {
                    position: replies.len() as int,
                    supported: accepted(start.format, start.candidates, replies),
                    ..start
                },
            )
        },
    decreases replies.len(),
{
    if replies.len() == 0 {
        assert(start.supported =~= accepted(start.format, start.candidates, replies));
    } else {
        let n = replies.len() - 1;
        let states_before = states.drop_last();
        let asked_before = asked.drop_last();
        let before = replies.drop_last();
        assert forall|i: int| 0 <= i < before.len() implies call_ensures(
            SupportedFormats::action,
            (&states_before[i],),
            FormatsAction::CheckCandidate { candidate: asked_before[i] },
        ) && call_ensures(
            SupportedFormats::step,
            (states_before[i], FormatsEvent::CandidateChecked { reply: #[trigger] before[i] }),
            states_before[i + 1],
        ) by {
            assert(before[i] == replies[i]);
        }
        lemma_run_of_answers(start, states_before, asked_before, before);
        let event = FormatsEvent::CandidateChecked { reply: replies[n] };
        assert(call_ensures(SupportedFormats::step, (states[n], event), states[n + 1]));
        assert(states[n].leads_to(event, states[n + 1]));
        assert(states[n] is Probing);
        assert(states_before.last() == states[n]);
        if before.len() > 0 {
            assert(!is_gone(before.last()));
            assert(before.last() == replies[n - 1]);
        }
        assert forall|i: int| 0 <= i < replies.len() - 1 implies !is_gone(
            #[trigger] replies[i],
        ) by {
            assert(before[i] == replies[i]);
        }
        assert(asked[n] == start.candidates[n]);
        assert forall|i: int| 0 <= i < asked.len() implies #[trigger] asked[i]
            == start.candidates[i] by {
            if i < n {
                assert(asked[i] == asked_before[i]);
            }
        }
        assert(replies.last() == replies[n]);
    }
}

} // verus!
